//! Requests to the file system system call (function 70) and the file information that
//! the kernel returns.
use vstd::prelude::*;
use crate::datetime::{Date, DateTime, Time};

verus! {

/// The operation of a file system request.
#[derive(Debug, Clone, Copy, PartialEq, Eq, Structural)]
pub enum FSSubFunction {
    ReadFile,
    ReadDir,
    RewriteFile,
    WriteFile,
    SetFileSize,
    Stat,
    SetAttributes,
    LaunchProgram,
    DeleteFileDir,
    CreateDirectory,
}

pub open spec fn subfunction_code(s: FSSubFunction) -> int {
    match s {
        FSSubFunction::ReadFile => 0,
        FSSubFunction::ReadDir => 1,
        FSSubFunction::RewriteFile => 2,
        FSSubFunction::WriteFile => 3,
        FSSubFunction::SetFileSize => 4,
        FSSubFunction::Stat => 5,
        FSSubFunction::SetAttributes => 6,
        FSSubFunction::LaunchProgram => 7,
        FSSubFunction::DeleteFileDir => 8,
        FSSubFunction::CreateDirectory => 9,
    }
}

impl FSSubFunction {
    /// The number of the subfunction in the first field of the request.
    pub fn code(self) -> (c: u32)
        ensures
            c == subfunction_code(self),
    {
        match self {
            FSSubFunction::ReadFile => 0,
            FSSubFunction::ReadDir => 1,
            FSSubFunction::RewriteFile => 2,
            FSSubFunction::WriteFile => 3,
            FSSubFunction::SetFileSize => 4,
            FSSubFunction::Stat => 5,
            FSSubFunction::SetAttributes => 6,
            FSSubFunction::LaunchProgram => 7,
            FSSubFunction::DeleteFileDir => 8,
            FSSubFunction::CreateDirectory => 9,
        }
    }
}

/// An offset and a flag word, as some subfunctions read the offset field.
#[derive(Debug, Clone, Copy, PartialEq, Eq, Structural)]
pub struct FSOffsetWithFlags {
    pub offset: u32,
    pub flags: u32,
}

/// The 8 bytes of the offset field of a request, as they stand in memory.
#[derive(Debug, Clone, Copy, PartialEq, Eq)]
pub struct FSOffset {
    pub bytes: [u8; 8],
}

/// Byte `i` of `x`, counting from the least significant.
pub open spec fn byte_of(x: int, i: int) -> u8 {
    ((x / pow256(i)) % 256) as u8
}

pub open spec fn pow256(i: int) -> int
    decreases i,
{
    if i <= 0 { 1 } else { 256 * pow256(i - 1) }
}

/// The bytes of a `u64` most significant first.
pub open spec fn be_bytes64(x: u64) -> Seq<u8> {
    Seq::new(8, |i: int| byte_of(x as int, 7 - i))
}

/// The bytes of a `u32` least significant first.
pub open spec fn le_bytes32(x: u32) -> Seq<u8> {
    Seq::new(4, |i: int| byte_of(x as int, i))
}

proof fn lemma_pow256_values()
    ensures
        pow256(0) == 1,
        pow256(1) == 0x100,
        pow256(2) == 0x10000,
        pow256(3) == 0x1000000,
        pow256(4) == 0x100000000,
        pow256(5) == 0x10000000000,
        pow256(6) == 0x1000000000000,
        pow256(7) == 0x100000000000000,
{
    reveal_with_fuel(pow256, 8);
}

fn be_bytes_u64(x: u64) -> (b: [u8; 8])
    ensures
        b@ == be_bytes64(x),
{
    proof { lemma_pow256_values(); }
    let b = [
        (x / 0x100000000000000 % 256) as u8,
        (x / 0x1000000000000 % 256) as u8,
        (x / 0x10000000000 % 256) as u8,
        (x / 0x100000000 % 256) as u8,
        (x / 0x1000000 % 256) as u8,
        (x / 0x10000 % 256) as u8,
        (x / 0x100 % 256) as u8,
        (x % 256) as u8,
    ];
    assert(b@ =~= be_bytes64(x));
    b
}

fn le_bytes_u32(x: u32) -> (b: [u8; 4])
    ensures
        b@ == le_bytes32(x),
{
    proof { lemma_pow256_values(); }
    let b = [(x % 256) as u8, (x / 0x100 % 256) as u8, (x / 0x10000 % 256) as u8, (x / 0x1000000 % 256) as u8];
    assert(b@ =~= le_bytes32(x));
    b
}

/// The buffer of a request: its length, and whether the kernel may write into it.
#[derive(Debug, Clone, Copy, PartialEq, Eq, Structural)]
pub enum FSDataBlockBuilderBuffer {
    Immutable(usize),
    Mutable(usize),
}

pub open spec fn buffer_len(b: FSDataBlockBuilderBuffer) -> usize {
    match b {
        FSDataBlockBuilderBuffer::Immutable(n) => n,
        FSDataBlockBuilderBuffer::Mutable(n) => n,
    }
}

impl FSDataBlockBuilderBuffer {
    /// Length of the buffer in bytes.
    pub fn len(&self) -> (n: usize)
        ensures
            n == buffer_len(*self),
    {
        match self {
            FSDataBlockBuilderBuffer::Immutable(n) => *n,
            FSDataBlockBuilderBuffer::Mutable(n) => *n,
        }
    }
}

/// A file system request: the memory image of the fields that are not addresses, and the
/// path. Whoever issues it supplies the address of the buffer and of the path.
#[derive(Debug, Clone, PartialEq, Eq)]
pub struct FSDataBlock {
    pub subfunction: FSSubFunction,
    pub offset: FSOffset,
    pub buffer_size: u32,
    pub buffer: FSDataBlockBuilderBuffer,
    /// The path as the kernel reads it: the encoding byte 3 (UTF-8), then the path bytes; the
    /// terminating NUL is added where the request is laid out.
    pub filepath: Vec<u8>,
}

/// A request under construction; `build` turns it into an `FSDataBlock`.
#[derive(Debug, Clone, PartialEq, Eq)]
pub struct FSDataBlockBuilder {
    pub subfunction: Option<FSSubFunction>,
    pub offset: Option<FSOffset>,
    pub buffer: Option<FSDataBlockBuilderBuffer>,
    pub filepath: Option<Vec<u8>>,
}

/// Whether a path can be handed to the kernel: UTF-8 without a NUL byte.
pub open spec fn valid_path(p: Seq<u8>) -> bool {
    vstd::utf8::valid_utf8(p) && !p.contains(0u8)
}

pub open spec fn with_subfunction(b: FSDataBlockBuilder, s: FSSubFunction) -> FSDataBlockBuilder {
    FSDataBlockBuilder { subfunction: Some(s), ..b }
}

/// Whether a builder has everything that `build` needs besides the path.
pub open spec fn ready(b: FSDataBlockBuilder) -> bool {
    b.subfunction.is_some() && b.offset.is_some() && b.buffer.is_some()
}

/// The buffer size that a request announces: 0 for `Stat`, the buffer's length (in 32 bits)
/// otherwise.
pub open spec fn announced_size(s: FSSubFunction, b: FSDataBlockBuilderBuffer) -> u32 {
    if s == FSSubFunction::Stat { 0u32 } else { buffer_len(b) as u32 }
}

impl FSDataBlockBuilder {
    /// A builder with nothing set.
    pub fn new() -> (b: Self)
        ensures
            b.subfunction.is_none(),
            b.offset.is_none(),
            b.buffer.is_none(),
            b.filepath.is_none(),
    {
        FSDataBlockBuilder { subfunction: None, offset: None, buffer: None, filepath: None }
    }

    /// Sets the subfunction to reading a file.
    pub fn read(self) -> (b: Self)
        ensures
            b == with_subfunction(self, FSSubFunction::ReadFile),
    {
        FSDataBlockBuilder { subfunction: Some(FSSubFunction::ReadFile), ..self }
    }

    /// Sets the subfunction to writing into a file.
    pub fn write(self) -> (b: Self)
        ensures
            b == with_subfunction(self, FSSubFunction::WriteFile),
    {
        FSDataBlockBuilder { subfunction: Some(FSSubFunction::WriteFile), ..self }
    }

    /// Sets the subfunction to creating (or rewriting) a file.
    pub fn create_file(self) -> (b: Self)
        ensures
            b == with_subfunction(self, FSSubFunction::RewriteFile),
    {
        FSDataBlockBuilder { subfunction: Some(FSSubFunction::RewriteFile), ..self }
    }

    /// Sets the subfunction to setting the size of a file.
    pub fn set_file_size(self) -> (b: Self)
        ensures
            b == with_subfunction(self, FSSubFunction::SetFileSize),
    {
        FSDataBlockBuilder { subfunction: Some(FSSubFunction::SetFileSize), ..self }
    }

    /// Sets the subfunction to creating a directory.
    pub fn create_directory(self) -> (b: Self)
        ensures
            b == with_subfunction(self, FSSubFunction::CreateDirectory),
    {
        FSDataBlockBuilder { subfunction: Some(FSSubFunction::CreateDirectory), ..self }
    }

    /// Sets the subfunction to reading the information of a file.
    pub fn stat(self) -> (b: Self)
        ensures
            b == with_subfunction(self, FSSubFunction::Stat),
    {
        FSDataBlockBuilder { subfunction: Some(FSSubFunction::Stat), ..self }
    }

    /// Sets the path (the bytes of a C string, without its NUL).
    pub fn path(self, path: Vec<u8>) -> (b: Self)
        ensures
            b == (FSDataBlockBuilder { filepath: Some(path), ..self }),
    {
        FSDataBlockBuilder { filepath: Some(path), ..self }
    }

    /// Sets the offset field; it holds the offset most significant byte first.
    pub fn offset(self, offset: u64) -> (b: Self)
        ensures
            b.subfunction == self.subfunction,
            b.buffer == self.buffer,
            b.filepath == self.filepath,
            b.offset.is_some(),
            b.offset.unwrap().bytes@ == be_bytes64(offset),
    {
        let bytes = be_bytes_u64(offset);
        FSDataBlockBuilder { offset: Some(FSOffset { bytes }), ..self }
    }

    /// Sets the offset field to an offset and a flag word, each least significant byte
    /// first as on the x86 target.
    pub fn offset_flags(self, offset: u32, flags: u32) -> (b: Self)
        ensures
            b.subfunction == self.subfunction,
            b.buffer == self.buffer,
            b.filepath == self.filepath,
            b.offset.is_some(),
            b.offset.unwrap().bytes@ == le_bytes32(offset) + le_bytes32(flags),
    {
        let o = le_bytes_u32(offset);
        let f = le_bytes_u32(flags);
        let bytes = [o[0], o[1], o[2], o[3], f[0], f[1], f[2], f[3]];
        assert(bytes@ =~= le_bytes32(offset) + le_bytes32(flags));
        FSDataBlockBuilder { offset: Some(FSOffset { bytes }), ..self }
    }

    /// Sets a buffer that the kernel reads from.
    pub fn buffer(self, buf: &[u8]) -> (b: Self)
        ensures
            b == (FSDataBlockBuilder { buffer: Some(FSDataBlockBuilderBuffer::Immutable(buf@.len() as usize)), ..self }),
    {
        FSDataBlockBuilder { buffer: Some(FSDataBlockBuilderBuffer::Immutable(buf.len())), ..self }
    }

    /// Sets a buffer that the kernel writes into.
    pub fn buffer_mut(self, buf: &mut [u8]) -> (b: Self)
        ensures
            b == (FSDataBlockBuilder { buffer: Some(FSDataBlockBuilderBuffer::Mutable(old(buf)@.len() as usize)), ..self }),
            final(buf)@ == old(buf)@,
    {
        FSDataBlockBuilder { buffer: Some(FSDataBlockBuilderBuffer::Mutable(buf.len())), ..self }
    }

    /// The request, or `None` unless subfunction, offset and buffer are set. The path must be
    /// set, UTF-8 and free of NUL bytes.
    pub fn build(self) -> (r: Option<FSDataBlock>)
        requires
            self.filepath.is_some(),
            valid_path(self.filepath.unwrap()@),
        ensures
            r.is_some() == ready(self),
            r.is_some() ==> {
                let blk = r.unwrap();
                &&& blk.subfunction == self.subfunction.unwrap()
                &&& blk.offset == self.offset.unwrap()
                &&& blk.buffer == self.buffer.unwrap()
                &&& blk.buffer_size == announced_size(blk.subfunction, blk.buffer)
                &&& blk.filepath@ == seq![3u8] + self.filepath.unwrap()@
                &&& valid_path(blk.filepath@)
            },
    {
        let path = self.filepath.unwrap();
        let mut new_path: Vec<u8> = Vec::new();
        new_path.push(3u8);
        let mut i: usize = 0;
        while i < path.len()
            invariant
                i <= path@.len(),
                new_path@ == seq![3u8] + path@.subrange(0, i as int),
            decreases path@.len() - i,
        {
            new_path.push(path[i]);
            i = i + 1;
            assert(new_path@ =~= seq![3u8] + path@.subrange(0, i as int));
        }
        assert(path@.subrange(0, path@.len() as int) =~= path@);
        proof {
            let p = seq![3u8];
            assert(vstd::utf8::valid_utf8(p)) by {
                reveal_with_fuel(vstd::utf8::valid_utf8, 2);
                assert(vstd::utf8::pop_first_scalar(p) =~= Seq::<u8>::empty());
            }
            vstd::utf8::valid_utf8_concat(p, path@);
            assert(!new_path@.contains(0u8)) by {
                if new_path@.contains(0u8) {
                    let k = choose|k: int| 0 <= k < new_path@.len() && new_path@[k] == 0u8;
                    assert(path@[k - 1] == 0u8);
                }
            }
        }
        let subfunction = match self.subfunction {
            Some(s) => s,
            None => { return None; },
        };
        let buffer_length: usize = if subfunction == FSSubFunction::Stat {
            0
        } else {
            match &self.buffer {
                Some(b) => b.len(),
                None => { return None; },
            }
        };
        let offset = match self.offset {
            Some(o) => o,
            None => { return None; },
        };
        let buffer = match self.buffer {
            Some(b) => b,
            None => { return None; },
        };
        Some(FSDataBlock {
            subfunction,
            offset,
            buffer_size: buffer_length as u32,
            buffer,
            filepath: new_path,
        })
    }
}

/// A time of day as the file information stores it.
#[derive(Debug, Clone, Copy, PartialEq, Eq, Structural)]
pub struct DirectoryEntryInfoTime {
    pub seconds: u8,
    pub minutes: u8,
    pub hours: u8,
    pub reserved: u8,
}

impl DirectoryEntryInfoTime {
    /// The same time as a `Time`.
    pub fn to_system_time(&self) -> (t: Time)
        ensures
            t.second == self.seconds,
            t.minute == self.minutes,
            t.hour == self.hours,
    {
        Time { second: self.seconds, minute: self.minutes, hour: self.hours }
    }
}

/// A date as the file information stores it.
#[derive(Debug, Clone, Copy, PartialEq, Eq, Structural)]
pub struct DirectoryEntryInfoDate {
    pub day: u8,
    pub month: u8,
    pub year: u16,
}

impl DirectoryEntryInfoDate {
    /// The same date as a `Date`.
    pub fn to_system_date(&self) -> (d: Date)
        ensures
            d.day == self.day,
            d.month == self.month,
            d.year == self.year,
    {
        Date { day: self.day, month: self.month, year: self.year }
    }
}

/// The information that the kernel returns about a file or directory.
#[derive(Debug, Clone, PartialEq, Eq)]
pub struct DirectoryEntryInfo {
    pub attributes: u32,
    pub encoding: u8,
    pub creation_time: DirectoryEntryInfoTime,
    pub creation_date: DirectoryEntryInfoDate,
    pub access_time: DirectoryEntryInfoTime,
    pub access_date: DirectoryEntryInfoDate,
    pub modify_time: DirectoryEntryInfoTime,
    pub modify_date: DirectoryEntryInfoDate,
    pub filesize: u64,
    /// The name that follows the fixed part, as many bytes as the record holds.
    pub name_raw: Vec<u8>,
}

/// Size of the fixed part of the record.
pub const INFO_HEADER_SIZE: usize = 40;

/// Largest record: the fixed part and 520 bytes of name.
pub const INFO_MAX_SIZE: usize = 560;

pub open spec fn le_u16_at(b: Seq<u8>, at: int) -> int {
    b[at] + 256 * b[at + 1]
}

pub open spec fn le_u32_at(b: Seq<u8>, at: int) -> int {
    le_u16_at(b, at) + 65536 * le_u16_at(b, at + 2)
}

pub open spec fn le_u64_at(b: Seq<u8>, at: int) -> int {
    le_u32_at(b, at) + 4294967296 * le_u32_at(b, at + 4)
}

pub open spec fn info_time_at(b: Seq<u8>, at: int) -> DirectoryEntryInfoTime {
    DirectoryEntryInfoTime { seconds: b[at], minutes: b[at + 1], hours: b[at + 2], reserved: b[at + 3] }
}

pub open spec fn info_date_at(b: Seq<u8>, at: int) -> DirectoryEntryInfoDate {
    DirectoryEntryInfoDate { day: b[at], month: b[at + 1], year: le_u16_at(b, at + 2) as u16 }
}

/// Whether `info` holds the fixed part of the record in a buffer of at least 40 bytes:
/// attributes at 0, encoding at 4, the creation, access and modification time and date at
/// 8, 16 and 24, and the size at 32, numbers least significant byte first.
pub open spec fn fixed_part_is(info: DirectoryEntryInfo, b: Seq<u8>) -> bool {
    &&& info.attributes == le_u32_at(b, 0)
    &&& info.encoding == b[4]
    &&& info.creation_time == info_time_at(b, 8)
    &&& info.creation_date == info_date_at(b, 12)
    &&& info.access_time == info_time_at(b, 16)
    &&& info.access_date == info_date_at(b, 20)
    &&& info.modify_time == info_time_at(b, 24)
    &&& info.modify_date == info_date_at(b, 28)
    &&& info.filesize == le_u64_at(b, 32)
}

/// The name part of the record: the bytes from 40 up to 560.
pub open spec fn info_name(b: Seq<u8>) -> Seq<u8> {
    b.subrange(40, if b.len() < 560 { b.len() as int } else { 560 })
}

fn read_u16(b: &[u8], at: usize) -> (v: u16)
    requires
        at + 2 <= b.len(),
    ensures
        v == le_u16_at(b@, at as int),
{
    (b[at] as u16) + 256 * (b[at + 1] as u16)
}

fn read_u32(b: &[u8], at: usize) -> (v: u32)
    requires
        at + 4 <= b.len(),
    ensures
        v == le_u32_at(b@, at as int),
{
    let lo = read_u16(b, at) as u32;
    let hi = read_u16(b, at + 2) as u32;
    lo + 65536 * hi
}

fn read_u64(b: &[u8], at: usize) -> (v: u64)
    requires
        at + 8 <= b.len(),
    ensures
        v == le_u64_at(b@, at as int),
{
    let lo = read_u32(b, at) as u64;
    let hi = read_u32(b, at + 4) as u64;
    lo + 4294967296 * hi
}

fn read_time(b: &[u8], at: usize) -> (t: DirectoryEntryInfoTime)
    requires
        at + 4 <= b.len(),
    ensures
        t == info_time_at(b@, at as int),
{
    DirectoryEntryInfoTime { seconds: b[at], minutes: b[at + 1], hours: b[at + 2], reserved: b[at + 3] }
}

fn read_date(b: &[u8], at: usize) -> (d: DirectoryEntryInfoDate)
    requires
        at + 4 <= b.len(),
    ensures
        d == info_date_at(b@, at as int),
{
    DirectoryEntryInfoDate { day: b[at], month: b[at + 1], year: read_u16(b, at + 2) }
}

impl DirectoryEntryInfo {
    /// Reads the record that the kernel wrote into a buffer of at least 40 bytes.
    pub fn from_bytes(b: &[u8]) -> (info: DirectoryEntryInfo)
        requires
            b@.len() >= 40,
        ensures
            fixed_part_is(info, b@),
            info.name_raw@ == info_name(b@),
    {
        let end = if b.len() < INFO_MAX_SIZE { b.len() } else { INFO_MAX_SIZE };
        let mut name: Vec<u8> = Vec::new();
        let mut i: usize = INFO_HEADER_SIZE;
        while i < end
            invariant
                40 <= i <= end,
                end <= b@.len(),
                end == (if b@.len() < 560 { b@.len() as int } else { 560 }),
                name@ == b@.subrange(40, i as int),
            decreases end - i,
        {
            name.push(b[i]);
            i = i + 1;
            assert(name@ =~= b@.subrange(40, i as int));
        }
        DirectoryEntryInfo {
            attributes: read_u32(b, 0),
            encoding: b[4],
            creation_time: read_time(b, 8),
            creation_date: read_date(b, 12),
            access_time: read_time(b, 16),
            access_date: read_date(b, 20),
            modify_time: read_time(b, 24),
            modify_date: read_date(b, 28),
            filesize: read_u64(b, 32),
            name_raw: name,
        }
    }

    /// Attribute bit 0: read-only.
    pub fn is_readonly(&self) -> (b: bool)
        ensures
            b == (self.attributes % 2 == 1),
    {
        let a = self.attributes;
        let r = a & 1;
        assert(r == a % 2) by (bit_vector)
            requires r == a & 1;
        r != 0
    }

    /// Attribute bit 1: hidden.
    pub fn is_hidden(&self) -> (b: bool)
        ensures
            b == ((self.attributes / 2) % 2 == 1),
    {
        let a = self.attributes;
        let r = a & 2;
        assert((r != 0) == ((a / 2) % 2 == 1)) by (bit_vector)
            requires r == a & 2;
        r != 0
    }

    /// Attribute bit 2: system.
    pub fn is_system(&self) -> (b: bool)
        ensures
            b == ((self.attributes / 4) % 2 == 1),
    {
        let a = self.attributes;
        let r = a & 4;
        assert((r != 0) == ((a / 4) % 2 == 1)) by (bit_vector)
            requires r == a & 4;
        r != 0
    }

    /// Attribute bit 3: volume label.
    pub fn is_volumelabel(&self) -> (b: bool)
        ensures
            b == ((self.attributes / 8) % 2 == 1),
    {
        let a = self.attributes;
        let r = a & 8;
        assert((r != 0) == ((a / 8) % 2 == 1)) by (bit_vector)
            requires r == a & 8;
        r != 0
    }

    /// Attribute bit 4: directory.
    pub fn is_folder(&self) -> (b: bool)
        ensures
            b == ((self.attributes / 16) % 2 == 1),
    {
        let a = self.attributes;
        let r = a & 0x10;
        assert((r != 0) == ((a / 16) % 2 == 1)) by (bit_vector)
            requires r == a & 0x10;
        r != 0
    }

    /// Size of the file in bytes.
    pub fn size(&self) -> (s: u64)
        ensures
            s == self.filesize,
    {
        self.filesize
    }

    /// When the file was created.
    pub fn created(&self) -> (dt: DateTime)
        ensures
            dt.date == (Date { day: self.creation_date.day, month: self.creation_date.month, year: self.creation_date.year }),
            dt.time == (Time { second: self.creation_time.seconds, minute: self.creation_time.minutes, hour: self.creation_time.hours }),
    {
        DateTime { date: self.creation_date.to_system_date(), time: self.creation_time.to_system_time() }
    }

    /// When the file was last accessed.
    pub fn accessed(&self) -> (dt: DateTime)
        ensures
            dt.date == (Date { day: self.access_date.day, month: self.access_date.month, year: self.access_date.year }),
            dt.time == (Time { second: self.access_time.seconds, minute: self.access_time.minutes, hour: self.access_time.hours }),
    {
        DateTime { date: self.access_date.to_system_date(), time: self.access_time.to_system_time() }
    }

    /// When the file was last modified.
    pub fn modified(&self) -> (dt: DateTime)
        ensures
            dt.date == (Date { day: self.modify_date.day, month: self.modify_date.month, year: self.modify_date.year }),
            dt.time == (Time { second: self.modify_time.seconds, minute: self.modify_time.minutes, hour: self.modify_time.hours }),
    {
        DateTime { date: self.modify_date.to_system_date(), time: self.modify_time.to_system_time() }
    }

    /// Size of the whole record: 304 bytes with CP866 names (encoding 1), 560 otherwise.
    pub fn structure_size(&self) -> (n: usize)
        ensures
            n == (if self.encoding == 1 { 304usize } else { 560usize }),
    {
        if self.encoding == 1 { 304 } else { 560 }
    }
}

/// The number of each file system subfunction.
pub proof fn lemma_subfunction_code_table()
    ensures
        subfunction_code(FSSubFunction::ReadFile) == 0,
        subfunction_code(FSSubFunction::ReadDir) == 1,
        subfunction_code(FSSubFunction::RewriteFile) == 2,
        subfunction_code(FSSubFunction::WriteFile) == 3,
        subfunction_code(FSSubFunction::SetFileSize) == 4,
        subfunction_code(FSSubFunction::Stat) == 5,
        subfunction_code(FSSubFunction::SetAttributes) == 6,
        subfunction_code(FSSubFunction::LaunchProgram) == 7,
        subfunction_code(FSSubFunction::DeleteFileDir) == 8,
        subfunction_code(FSSubFunction::CreateDirectory) == 9,
{
}

/// The big-endian bytes of a `u64` put its most significant byte first and its least
/// significant byte last.
pub proof fn lemma_be_bytes64_order(x: u64)
    ensures
        be_bytes64(x).len() == 8,
        be_bytes64(x)[0] == (x / 0x100000000000000) % 256,
        be_bytes64(x)[1] == (x / 0x1000000000000) % 256,
        be_bytes64(x)[2] == (x / 0x10000000000) % 256,
        be_bytes64(x)[3] == (x / 0x100000000) % 256,
        be_bytes64(x)[4] == (x / 0x1000000) % 256,
        be_bytes64(x)[5] == (x / 0x10000) % 256,
        be_bytes64(x)[6] == (x / 0x100) % 256,
        be_bytes64(x)[7] == x % 256,
{
    lemma_pow256_values();
}

/// The little-endian bytes of a `u32` put its least significant byte first.
pub proof fn lemma_le_bytes32_order(x: u32)
    ensures
        le_bytes32(x).len() == 4,
        le_bytes32(x)[0] == x % 256,
        le_bytes32(x)[1] == (x / 0x100) % 256,
        le_bytes32(x)[2] == (x / 0x10000) % 256,
        le_bytes32(x)[3] == (x / 0x1000000) % 256,
{
    lemma_pow256_values();
}

/// A number read from the record is its bytes least significant first: byte `k` counts
/// `256^k` times.
pub proof fn lemma_le_numbers_at(b: Seq<u8>, at: int)
    ensures
        le_u16_at(b, at) == b[at] + 0x100 * b[at + 1],
        le_u32_at(b, at) == b[at] + 0x100 * b[at + 1] + 0x10000 * b[at + 2] + 0x1000000 * b[at + 3],
        le_u64_at(b, at) == b[at] + 0x100 * b[at + 1] + 0x10000 * b[at + 2] + 0x1000000 * b[at + 3]
            + 0x100000000 * b[at + 4] + 0x10000000000 * b[at + 5] + 0x1000000000000 * b[at + 6]
            + 0x100000000000000 * b[at + 7],
{
}

/// Where each field of the fixed part stands in the record: attributes in bytes 0 to 3,
/// encoding in byte 4, then time (second, minute, hour) and date (day, month, two bytes of
/// year) of creation at 8 and 12, of last access at 16 and 20, of modification at 24 and 28,
/// and the size in bytes 32 to 39, numbers least significant byte first.
pub proof fn lemma_record_layout(info: DirectoryEntryInfo, b: Seq<u8>)
    requires
        fixed_part_is(info, b),
    ensures
        info.attributes == b[0] + 0x100 * b[1] + 0x10000 * b[2] + 0x1000000 * b[3],
        info.encoding == b[4],
        info.creation_time.seconds == b[8] && info.creation_time.minutes == b[9]
            && info.creation_time.hours == b[10],
        info.creation_date.day == b[12] && info.creation_date.month == b[13]
            && info.creation_date.year == (b[14] + 0x100 * b[15]) as u16,
        info.access_time.seconds == b[16] && info.access_time.minutes == b[17]
            && info.access_time.hours == b[18],
        info.access_date.day == b[20] && info.access_date.month == b[21]
            && info.access_date.year == (b[22] + 0x100 * b[23]) as u16,
        info.modify_time.seconds == b[24] && info.modify_time.minutes == b[25]
            && info.modify_time.hours == b[26],
        info.modify_date.day == b[28] && info.modify_date.month == b[29]
            && info.modify_date.year == (b[30] + 0x100 * b[31]) as u16,
        info.filesize == b[32] + 0x100 * b[33] + 0x10000 * b[34] + 0x1000000 * b[35]
            + 0x100000000 * b[36] + 0x10000000000 * b[37] + 0x1000000000000 * b[38]
            + 0x100000000000000 * b[39],
{
}

} // verus!
