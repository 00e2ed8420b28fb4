//! Files on top of the file system system call: options, metadata, the open protocol, and
//! what reads, writes and seeks do with the kernel's replies.
use vstd::prelude::*;
use crate::common::{Never, unsupported};
use crate::datetime::{DateTime, date_countable, unix_seconds};
use crate::duration::Duration;
use crate::fs_block::{
    DirectoryEntryInfo, FSDataBlock, FSDataBlockBuilder, FSDataBlockBuilderBuffer,
    FSSubFunction, INFO_HEADER_SIZE, announced_size, be_bytes64, fixed_part_is, info_name, valid_path,
};
use crate::io_error::{ErrorKind, IoError};
use crate::time::SystemTime;

verus! {

/// Which accesses a file is opened for.
#[derive(Debug, Clone, Copy, PartialEq, Eq, Structural)]
pub struct OpenOptions {
    pub read: bool,
    pub write: bool,
    pub create: bool,
}

impl OpenOptions {
    /// No access requested, nothing created.
    pub fn new() -> (o: OpenOptions)
        ensures
            o == (OpenOptions { read: false, write: false, create: false }),
    {
        OpenOptions { read: false, write: false, create: false }
    }

    pub fn read(&mut self, read: bool)
        ensures
            *final(self) == (OpenOptions { read, ..*old(self) }),
    {
        self.read = read;
    }

    pub fn write(&mut self, write: bool)
        ensures
            *final(self) == (OpenOptions { write, ..*old(self) }),
    {
        self.write = write;
    }

    /// Appending is not an option on this platform; the options stay as they are.
    pub fn append(&mut self, _append: bool)
        ensures
            *final(self) == *old(self),
    {
    }

    /// Truncating is not an option on this platform; the options stay as they are.
    pub fn truncate(&mut self, _truncate: bool)
        ensures
            *final(self) == *old(self),
    {
    }

    pub fn create(&mut self, create: bool)
        ensures
            *final(self) == (OpenOptions { create, ..*old(self) }),
    {
        self.create = create;
    }

    /// Exclusive creation is not an option on this platform; the options stay as they are.
    pub fn create_new(&mut self, _create_new: bool)
        ensures
            *final(self) == *old(self),
    {
    }
}

/// Access times to set; this platform sets none.
#[derive(Debug, Clone, Copy, PartialEq, Eq, Structural, Default)]
pub struct FileTimes {}

impl FileTimes {
    pub fn set_accessed(&mut self, _t: SystemTime)
        ensures
            *final(self) == *old(self),
    {
    }

    pub fn set_modified(&mut self, _t: SystemTime)
        ensures
            *final(self) == *old(self),
    {
    }
}

/// Permissions of a file: only whether it is read-only.
#[derive(Debug, Clone, Copy, PartialEq, Eq, Structural)]
pub struct FilePermissions {
    pub is_readonly: bool,
}

impl FilePermissions {
    pub fn readonly(&self) -> (b: bool)
        ensures
            b == self.is_readonly,
    {
        self.is_readonly
    }

    pub fn set_readonly(&mut self, readonly: bool)
        ensures
            final(self).is_readonly == readonly,
    {
        self.is_readonly = readonly;
    }
}

/// Kind of a file: a directory or a regular file; there are no symbolic links.
#[derive(Debug, Clone, Copy, PartialEq, Eq, Structural, Hash)]
pub struct FileType {
    pub is_folder: bool,
}

impl FileType {
    pub fn is_dir(&self) -> (b: bool)
        ensures
            b == self.is_folder,
    {
        self.is_folder
    }

    pub fn is_file(&self) -> (b: bool)
        ensures
            b == !self.is_folder,
    {
        !self.is_folder
    }

    pub fn is_symlink(&self) -> (b: bool)
        ensures
            !b,
    {
        false
    }
}

/// Metadata of a file: the fixed part of the kernel's file information.
#[derive(Debug, Clone, PartialEq, Eq)]
pub struct FileAttr(pub DirectoryEntryInfo);

/// The wall-clock point of a file time stamp, read as seconds since 1970.
pub open spec fn stamp_nanos(dt: DateTime) -> int {
    unix_seconds(dt) * 1_000_000_000
}

/// Whether a file time stamp can be read as seconds since 1970.
pub open spec fn readable_stamp(dt: DateTime) -> bool {
    date_countable(dt.date) && unix_seconds(dt) >= 0
}

pub open spec fn stamp_of(r: Result<SystemTime, IoError>, dt: DateTime) -> bool {
    r.is_ok() && r.unwrap().0.wf() && r.unwrap().0.total_nanos() == stamp_nanos(dt)
}

fn time_from_stamp(dt: DateTime) -> (r: Result<SystemTime, IoError>)
    requires
        readable_stamp(dt),
    ensures
        stamp_of(r, dt),
{
    let unix = crate::time::unix_epoch();
    let secs = dt.to_unix();
    let d = Duration::from_secs(secs);
    Ok(unix.checked_add_duration(&d).unwrap())
}

impl FileAttr {
    pub fn size(&self) -> (s: u64)
        ensures
            s == self.0.filesize,
    {
        self.0.size()
    }

    pub fn perm(&self) -> (p: FilePermissions)
        ensures
            p.is_readonly == (self.0.attributes % 2 == 1),
    {
        FilePermissions { is_readonly: self.0.is_readonly() }
    }

    pub fn file_type(&self) -> (t: FileType)
        ensures
            t.is_folder == ((self.0.attributes / 16) % 2 == 1),
    {
        FileType { is_folder: self.0.is_folder() }
    }

    /// Time of the last modification, as seconds since 1970.
    pub fn modified(&self) -> (r: Result<SystemTime, IoError>)
        requires
            readable_stamp(modify_stamp(self.0)),
        ensures
            stamp_of(r, modify_stamp(self.0)),
    {
        time_from_stamp(self.0.modified())
    }

    /// Time of the last access, as seconds since 1970.
    pub fn accessed(&self) -> (r: Result<SystemTime, IoError>)
        requires
            readable_stamp(access_stamp(self.0)),
        ensures
            stamp_of(r, access_stamp(self.0)),
    {
        time_from_stamp(self.0.accessed())
    }

    /// Time of creation, as seconds since 1970.
    pub fn created(&self) -> (r: Result<SystemTime, IoError>)
        requires
            readable_stamp(creation_stamp(self.0)),
        ensures
            stamp_of(r, creation_stamp(self.0)),
    {
        time_from_stamp(self.0.created())
    }
}

pub open spec fn modify_stamp(i: DirectoryEntryInfo) -> DateTime {
    DateTime {
        date: crate::datetime::Date { day: i.modify_date.day, month: i.modify_date.month, year: i.modify_date.year },
        time: crate::datetime::Time { second: i.modify_time.seconds, minute: i.modify_time.minutes, hour: i.modify_time.hours },
    }
}

pub open spec fn access_stamp(i: DirectoryEntryInfo) -> DateTime {
    DateTime {
        date: crate::datetime::Date { day: i.access_date.day, month: i.access_date.month, year: i.access_date.year },
        time: crate::datetime::Time { second: i.access_time.seconds, minute: i.access_time.minutes, hour: i.access_time.hours },
    }
}

pub open spec fn creation_stamp(i: DirectoryEntryInfo) -> DateTime {
    DateTime {
        date: crate::datetime::Date { day: i.creation_date.day, month: i.creation_date.month, year: i.creation_date.year },
        time: crate::datetime::Time { second: i.creation_time.seconds, minute: i.creation_time.minutes, hour: i.creation_time.hours },
    }
}

/// Whence a seek counts.
#[derive(Debug, Clone, Copy, PartialEq, Eq, Structural)]
pub enum SeekFrom {
    Start(u64),
    End(i64),
    Current(i64),
}

/// `pos + delta`, held within `0..=u64::MAX`.
pub open spec fn saturating_add_signed(pos: u64, delta: i64) -> u64 {
    if pos + delta < 0 {
        0
    } else if pos + delta > u64::MAX {
        u64::MAX
    } else {
        (pos + delta) as u64
    }
}

fn add_signed_saturating(pos: u64, delta: i64) -> (r: u64)
    ensures
        r == saturating_add_signed(pos, delta),
{
    if delta >= 0 {
        let d = delta as u64;
        if pos > u64::MAX - d { u64::MAX } else { pos + d }
    } else {
        let d: u64 = if delta == i64::MIN { 0x8000_0000_0000_0000 } else { (-delta) as u64 };
        if pos < d { 0 } else { pos - d }
    }
}

/// Moving by a signed distance lands exactly `delta` bytes from `pos` whenever that lies in
/// `0..=u64::MAX`, and stops at the nearer end otherwise; moving by zero stays.
pub proof fn lemma_saturating_move(pos: u64, delta: i64)
    ensures
        0 <= pos + delta <= u64::MAX ==> saturating_add_signed(pos, delta) == pos + delta,
        pos + delta < 0 ==> saturating_add_signed(pos, delta) == 0,
        pos + delta > u64::MAX ==> saturating_add_signed(pos, delta) == u64::MAX,
        saturating_add_signed(pos, 0) == pos,
{
}

/// An open file: its path, the position of the next read or write, and its options.
#[derive(Debug, Clone, PartialEq, Eq)]
pub struct File {
    pub path: Vec<u8>,
    pub position: u64,
    pub options: OpenOptions,
}

/// Size of the buffer that receives a file's information: its fixed part.
pub open spec fn info_buffer_len() -> usize {
    40
}

/// A request for the information of a file, into a buffer that the kernel fills.
pub open spec fn is_stat_request(blk: FSDataBlock, path: Seq<u8>, buffer: FSDataBlockBuilderBuffer) -> bool {
    &&& blk.subfunction == FSSubFunction::Stat
    &&& blk.offset.bytes@ == be_bytes64(0)
    &&& blk.buffer == buffer
    &&& blk.buffer_size == 0
    &&& blk.filepath@ == seq![3u8] + path
}

/// A request for the subfunction `sub` on `path` at `offset`, with a buffer of `len` bytes.
pub open spec fn is_transfer_request(
    blk: FSDataBlock,
    sub: FSSubFunction,
    path: Seq<u8>,
    offset: u64,
    buffer: FSDataBlockBuilderBuffer,
) -> bool {
    &&& blk.subfunction == sub
    &&& blk.offset.bytes@ == be_bytes64(offset)
    &&& blk.buffer == buffer
    &&& blk.buffer_size == announced_size(sub, buffer)
    &&& blk.filepath@ == seq![3u8] + path
}

/// The request that asks for a file's information, with the information buffer.
pub fn stat_request(path: &Vec<u8>, buffer: FSDataBlockBuilderBuffer) -> (blk: FSDataBlock)
    requires
        valid_path(path@),
    ensures
        is_stat_request(blk, path@, buffer),
{
    let b = FSDataBlockBuilder::new().stat().path(path.clone()).offset(0);
    let b = FSDataBlockBuilder { buffer: Some(buffer), ..b };
    b.build().unwrap()
}

/// What the status of an existence query says: 0 that the file exists, 5 that it does not,
/// anything else is an error.
pub open spec fn exists_outcome(status: usize) -> Result<bool, IoError> {
    if status == 5 {
        Ok(false)
    } else if status == 0 {
        Ok(true)
    } else {
        Err(IoError::Os(status as i32))
    }
}

/// Reads the status of an existence query (a `Stat` request into an information buffer).
pub fn exists_from_status(status: usize) -> (r: Result<bool, IoError>)
    ensures
        r == exists_outcome(status),
{
    if status == 5 {
        Ok(false)
    } else if status == 0 {
        Ok(true)
    } else {
        Err(IoError::Os(status as i32))
    }
}

/// The request that asks whether a path exists.
pub fn exists_request(path: &Vec<u8>) -> (blk: FSDataBlock)
    requires
        valid_path(path@),
    ensures
        is_stat_request(blk, path@, FSDataBlockBuilderBuffer::Mutable(info_buffer_len())),
{
    stat_request(path, FSDataBlockBuilderBuffer::Mutable(INFO_HEADER_SIZE))
}

/// Where the opening of a file stands.
#[derive(Debug, Clone, Copy, PartialEq, Eq, Structural)]
pub enum OpenStage {
    /// Waiting for the first existence query.
    FirstCheck,
    /// Waiting for the second existence query.
    SecondCheck,
    /// Waiting for the request that creates the file.
    Creating,
    /// Done.
    Finished,
}

/// What the opening of a file asks for next.
#[derive(Debug)]
pub enum OpenAction {
    /// Issue this existence query and hand its status to `FileOpen::resume`.
    QueryExists(FSDataBlock),
    /// Issue this creation request and hand its status to `FileOpen::resume`.
    Create(FSDataBlock),
    /// Opening is over, with this result.
    Done(Result<File, IoError>),
}

/// The opening of a file in progress.
#[derive(Debug)]
pub struct FileOpen {
    pub path: Vec<u8>,
    pub options: OpenOptions,
    pub stage: OpenStage,
}

/// The file that a successful opening yields.
pub open spec fn opened_file(f: File, path: Seq<u8>, options: OpenOptions) -> bool {
    f.path@ == path && f.position == 0 && f.options == options
}

pub open spec fn is_query(a: OpenAction, path: Seq<u8>) -> bool {
    a matches OpenAction::QueryExists(blk)
        && is_stat_request(blk, path, FSDataBlockBuilderBuffer::Mutable(info_buffer_len()))
}

pub open spec fn is_create(a: OpenAction, path: Seq<u8>) -> bool {
    a matches OpenAction::Create(blk)
        && is_stat_request(blk, path, FSDataBlockBuilderBuffer::Immutable(0))
}

pub open spec fn is_done_ok(a: OpenAction, path: Seq<u8>, options: OpenOptions) -> bool {
    a matches OpenAction::Done(r) && r is Ok && opened_file(r->Ok_0, path, options)
}

pub open spec fn is_done_err(a: OpenAction, e: IoError) -> bool {
    a matches OpenAction::Done(r) && r == Err::<File, IoError>(e)
}

impl File {
    /// Starts opening the file at `path` (UTF-8, no NUL): asks whether it exists. The
    /// protocol then goes on in `FileOpen::resume`.
    pub fn open(path: Vec<u8>, opts: &OpenOptions) -> (r: (FileOpen, OpenAction))
        requires
            valid_path(path@),
        ensures
            r.0.path@ == path@,
            r.0.options == *opts,
            r.0.stage == OpenStage::FirstCheck,
            is_query(r.1, path@),
    {
        let blk = exists_request(&path);
        (FileOpen { path, options: *opts, stage: OpenStage::FirstCheck }, OpenAction::QueryExists(blk))
    }

    /// The request that asks for this file's information.
    pub fn file_attr_request(&self) -> (blk: FSDataBlock)
        requires
            valid_path(self.path@),
        ensures
            is_stat_request(blk, self.path@, FSDataBlockBuilderBuffer::Mutable(info_buffer_len())),
    {
        stat_request(&self.path, FSDataBlockBuilderBuffer::Mutable(INFO_HEADER_SIZE))
    }

    /// The file's information from the status of the request and the buffer it filled.
    pub fn file_attr(&self, status: usize, info: &[u8]) -> (r: Result<FileAttr, IoError>)
        requires
            info@.len() >= 40,
        ensures
            status == 0 ==> r is Ok && fixed_part_is(r->Ok_0.0, info@)
                && r->Ok_0.0.name_raw@ == info_name(info@),
            status != 0 ==> r == Err::<FileAttr, IoError>(IoError::Os(status as i32)),
    {
        if status == 0 {
            Ok(FileAttr(DirectoryEntryInfo::from_bytes(info)))
        } else {
            Err(IoError::Os(status as i32))
        }
    }

    pub fn fsync(&self) -> (r: Result<(), IoError>)
        ensures
            r == Err::<(), IoError>(IoError::UnsupportedPlatform),
    {
        unsupported()
    }

    pub fn datasync(&self) -> (r: Result<(), IoError>)
        ensures
            r == Err::<(), IoError>(IoError::UnsupportedPlatform),
    {
        unsupported()
    }

    pub fn lock(&self) -> (r: Result<(), IoError>)
        ensures
            r == Err::<(), IoError>(IoError::UnsupportedPlatform),
    {
        unsupported()
    }

    pub fn lock_shared(&self) -> (r: Result<(), IoError>)
        ensures
            r == Err::<(), IoError>(IoError::UnsupportedPlatform),
    {
        unsupported()
    }

    pub fn unlock(&self) -> (r: Result<(), IoError>)
        ensures
            r == Err::<(), IoError>(IoError::UnsupportedPlatform),
    {
        unsupported()
    }

    pub fn truncate(&self, _size: u64) -> (r: Result<(), IoError>)
        ensures
            r == Err::<(), IoError>(IoError::UnsupportedPlatform),
    {
        unsupported()
    }

    /// The request that reads from the current position into a buffer.
    pub fn read_request(&self, buf: &mut [u8]) -> (blk: FSDataBlock)
        requires
            valid_path(self.path@),
        ensures
            is_transfer_request(blk, FSSubFunction::ReadFile, self.path@, self.position,
                FSDataBlockBuilderBuffer::Mutable(old(buf)@.len() as usize)),
            final(buf)@ == old(buf)@,
    {
        FSDataBlockBuilder::new().read().path(self.path.clone()).offset(self.position).buffer_mut(buf).build().unwrap()
    }

    /// What a read did, from the status and the byte count of its request: status 0 or 6
    /// (end of file) moves the position by the bytes read; other statuses are errors.
    pub fn read(&mut self, status: usize, read_bytes: usize) -> (r: Result<usize, IoError>)
        requires
            (status == 0 || status == 6) ==> old(self).position + read_bytes <= u64::MAX,
        ensures
            (status == 0 || status == 6) ==> r == Ok::<usize, IoError>(read_bytes)
                && final(self).position == old(self).position + read_bytes,
            !(status == 0 || status == 6) ==> r == Err::<usize, IoError>(IoError::Os(status as i32))
                && final(self).position == old(self).position,
            final(self).path == old(self).path,
            final(self).options == old(self).options,
    {
        if status == 6 || status == 0 {
            self.position = self.position + read_bytes as u64;
            Ok(read_bytes)
        } else {
            Err(IoError::Os(status as i32))
        }
    }

    /// The request that fills the unfilled part of a cursor: none for a cursor without
    /// capacity, which reads nothing and advances by 0; otherwise the read request for it.
    pub fn read_buf_request(&self, unfilled: &mut [u8]) -> (r: Option<FSDataBlock>)
        requires
            valid_path(self.path@),
        ensures
            old(unfilled)@.len() == 0 ==> r.is_none(),
            old(unfilled)@.len() != 0 ==> r is Some && is_transfer_request(r->Some_0, FSSubFunction::ReadFile,
                self.path@, self.position, FSDataBlockBuilderBuffer::Mutable(old(unfilled)@.len() as usize)),
            final(unfilled)@ == old(unfilled)@,
    {
        if unfilled.len() == 0 {
            return None;
        }
        Some(self.read_request(unfilled))
    }

    /// What a read into a cursor did, from the reply of its read request: the bytes to
    /// advance the cursor by. An error whose status reads as end of file (6 in 32 bits)
    /// counts as no bytes; other errors stay.
    /// (A cursor without capacity issues no request and advances by 0.)
    pub fn read_buf(&mut self, status: usize, read_bytes: usize) -> (r: Result<usize, IoError>)
        requires
            (status == 0 || status == 6) ==> old(self).position + read_bytes <= u64::MAX,
            !(status == 0 || status == 6) ==> crate::io_error::is_known_status(status as i32 as int),
        ensures
            (status == 0 || status == 6) ==> r == Ok::<usize, IoError>(read_bytes)
                && final(self).position == old(self).position + read_bytes,
            !(status == 0 || status == 6) ==> final(self).position == old(self).position
                && r == (if status as i32 == 6 {
                    Ok::<usize, IoError>(0)
                } else {
                    Err::<usize, IoError>(IoError::Os(status as i32))
                }),
            final(self).path == old(self).path,
            final(self).options == old(self).options,
    {
        match self.read(status, read_bytes) {
            Ok(value) => Ok(value),
            Err(e) => {
                if e.kind() == ErrorKind::UnexpectedEof {
                    Ok(0)
                } else {
                    Err(e)
                }
            },
        }
    }

    pub fn read_vectored(&self) -> (r: Result<usize, IoError>)
        ensures
            r == Err::<usize, IoError>(IoError::UnsupportedPlatform),
    {
        unsupported()
    }

    pub fn is_read_vectored(&self) -> (b: bool)
        ensures
            !b,
    {
        false
    }

    /// The request that writes a buffer at the current position, or the refusal when the
    /// file was not opened for writing. It rewrites the file from that position.
    pub fn write_request(&self, buf: &[u8]) -> (r: Result<FSDataBlock, IoError>)
        requires
            self.options.write ==> valid_path(self.path@),
        ensures
            !self.options.write ==> r == Err::<FSDataBlock, IoError>(IoError::Simple(ErrorKind::PermissionDenied)),
            self.options.write ==> r is Ok && is_transfer_request(r->Ok_0, FSSubFunction::RewriteFile,
                self.path@, self.position, FSDataBlockBuilderBuffer::Immutable(buf@.len() as usize)),
    {
        if !self.options.write {
            return Err(IoError::Simple(ErrorKind::PermissionDenied));
        }
        Ok(FSDataBlockBuilder::new().create_file().path(self.path.clone()).offset(self.position).buffer(buf).build().unwrap())
    }

    /// What a write did, from the status and the byte count of its request: status 0 moves
    /// the position by the bytes written; any other status is an error.
    pub fn write(&mut self, status: usize, written_bytes: usize) -> (r: Result<usize, IoError>)
        requires
            status == 0 ==> old(self).position + written_bytes <= u64::MAX,
        ensures
            status == 0 ==> r == Ok::<usize, IoError>(written_bytes)
                && final(self).position == old(self).position + written_bytes,
            status != 0 ==> r == Err::<usize, IoError>(IoError::Os(status as i32))
                && final(self).position == old(self).position,
            final(self).path == old(self).path,
            final(self).options == old(self).options,
    {
        if status == 0 {
            self.position = self.position + written_bytes as u64;
            Ok(written_bytes)
        } else {
            Err(IoError::Os(status as i32))
        }
    }

    pub fn write_vectored(&self) -> (r: Result<usize, IoError>)
        ensures
            r == Err::<usize, IoError>(IoError::UnsupportedPlatform),
    {
        unsupported()
    }

    pub fn is_write_vectored(&self) -> (b: bool)
        ensures
            !b,
    {
        false
    }

    pub fn flush(&self) -> (r: Result<(), IoError>)
        ensures
            r == Ok::<(), IoError>(()),
    {
        Ok(())
    }

    /// Moves the position: to an absolute offset, or by a signed amount held within
    /// `0..=u64::MAX`. Seeking from the end is not implemented.
    pub fn seek(&mut self, pos: SeekFrom) -> (r: Result<u64, IoError>)
        requires
            !(pos is End),
        ensures
            r is Ok,
            final(self).position == r->Ok_0,
            pos matches SeekFrom::Start(st) ==> r->Ok_0 == st,
            pos matches SeekFrom::Current(cu) ==> r->Ok_0 == saturating_add_signed(old(self).position, cu),
            pos matches SeekFrom::Current(cu) ==> (0 <= old(self).position + cu <= u64::MAX
                ==> r->Ok_0 == old(self).position + cu),
            pos matches SeekFrom::Current(cu) ==> (old(self).position + cu < 0 ==> r->Ok_0 == 0),
            pos matches SeekFrom::Current(cu) ==> (old(self).position + cu > u64::MAX
                ==> r->Ok_0 == u64::MAX),
            final(self).path == old(self).path,
            final(self).options == old(self).options,
    {
        let mut current_pos = self.position;
        match pos {
            SeekFrom::Start(st) => {
                current_pos = st;
            },
            SeekFrom::End(_en) => {},
            SeekFrom::Current(cu) => {
                current_pos = add_signed_saturating(current_pos, cu);
            },
        }
        self.position = current_pos;
        Ok(current_pos)
    }

    /// The size is not known without a request; there is none.
    pub fn size(&self) -> (r: Option<Result<u64, IoError>>)
        ensures
            r.is_none(),
    {
        None
    }

    pub fn tell(&self) -> (r: Result<u64, IoError>)
        ensures
            r == Ok::<u64, IoError>(self.position),
    {
        Ok(self.position)
    }

    pub fn duplicate(&self) -> (r: Result<File, IoError>)
        ensures
            r == Err::<File, IoError>(IoError::UnsupportedPlatform),
    {
        unsupported()
    }

    pub fn set_permissions(&self, _perm: FilePermissions) -> (r: Result<(), IoError>)
        ensures
            r == Err::<(), IoError>(IoError::UnsupportedPlatform),
    {
        unsupported()
    }

    pub fn set_times(&self, _times: FileTimes) -> (r: Result<(), IoError>)
        ensures
            r == Err::<(), IoError>(IoError::UnsupportedPlatform),
    {
        unsupported()
    }
}

impl FileOpen {
    /// Takes the status of the request that the last action asked for, and says what comes
    /// next. A failed existence query ends the opening with its error; a file that does not
    /// exist and may not be created ends it with `NotFound`; otherwise existence is asked a
    /// second time, and a file that still does not exist and may be created is created by a
    /// `Stat` request with an empty buffer, whose nonzero status is an error. Every other way
    /// ends with the file opened at position 0.
    pub fn resume(&mut self, status: usize) -> (a: OpenAction)
        requires
            old(self).stage != OpenStage::Finished,
            valid_path(old(self).path@),
        ensures
            final(self).path == old(self).path,
            final(self).options == old(self).options,
            ({
                let path = old(self).path@;
                let create = old(self).options.create;
                let opts = old(self).options;
                match old(self).stage {
                    OpenStage::FirstCheck => match exists_outcome(status) {
                        Err(e) => is_done_err(a, e) && final(self).stage == OpenStage::Finished,
                        Ok(false) if !create => is_done_err(a, IoError::Simple(ErrorKind::NotFound))
                            && final(self).stage == OpenStage::Finished,
                        Ok(_) => is_query(a, path) && final(self).stage == OpenStage::SecondCheck,
                    },
                    OpenStage::SecondCheck => match exists_outcome(status) {
                        Err(e) => is_done_err(a, e) && final(self).stage == OpenStage::Finished,
                        Ok(false) if create => is_create(a, path) && final(self).stage == OpenStage::Creating,
                        Ok(_) => is_done_ok(a, path, opts) && final(self).stage == OpenStage::Finished,
                    },
                    OpenStage::Creating => if status == 0 {
                        is_done_ok(a, path, opts) && final(self).stage == OpenStage::Finished
                    } else {
                        is_done_err(a, IoError::Os(status as i32)) && final(self).stage == OpenStage::Finished
                    },
                    OpenStage::Finished => false,
                }
            }),
    {
        match self.stage {
            OpenStage::FirstCheck => {
                match exists_from_status(status) {
                    Err(e) => {
                        self.stage = OpenStage::Finished;
                        OpenAction::Done(Err(e))
                    },
                    Ok(found) => {
                        if !found && !self.options.create {
                            self.stage = OpenStage::Finished;
                            OpenAction::Done(Err(IoError::Simple(ErrorKind::NotFound)))
                        } else {
                            self.stage = OpenStage::SecondCheck;
                            OpenAction::QueryExists(exists_request(&self.path))
                        }
                    },
                }
            },
            OpenStage::SecondCheck => {
                match exists_from_status(status) {
                    Err(e) => {
                        self.stage = OpenStage::Finished;
                        OpenAction::Done(Err(e))
                    },
                    Ok(found) => {
                        if !found && self.options.create {
                            self.stage = OpenStage::Creating;
                            OpenAction::Create(stat_request(&self.path, FSDataBlockBuilderBuffer::Immutable(0)))
                        } else {
                            self.stage = OpenStage::Finished;
                            OpenAction::Done(Ok(self.opened()))
                        }
                    },
                }
            },
            _ => {
                self.stage = OpenStage::Finished;
                if status == 0 {
                    OpenAction::Done(Ok(self.opened()))
                } else {
                    OpenAction::Done(Err(IoError::Os(status as i32)))
                }
            },
        }
    }

    fn opened(&self) -> (f: File)
        ensures
            opened_file(f, self.path@, self.options),
    {
        File { path: self.path.clone(), position: 0, options: self.options }
    }
}

/// Creating directories is not supported.
#[derive(Debug, Clone, Copy, PartialEq, Eq, Structural, Default)]
pub struct DirBuilder {}

impl DirBuilder {
    pub fn new() -> (d: DirBuilder)
        ensures
            d == (DirBuilder {}),
    {
        DirBuilder {}
    }

    pub fn mkdir(&self, _p: &[u8]) -> (r: Result<(), IoError>)
        ensures
            r == Err::<(), IoError>(IoError::UnsupportedPlatform),
    {
        unsupported()
    }
}

/// Directory listings cannot be made on this platform: no value of this type exists.
pub struct ReadDir(pub Never);

/// Entries of a directory listing: no value of this type exists.
pub struct DirEntry(pub Never);

impl ReadDir {
    /// The next entry; never called, as there is no listing.
    pub fn next(&mut self) -> Option<Result<DirEntry, IoError>> {
        proof { use_type_invariant(&self.0); }
        None
    }
}

impl DirEntry {
    /// Never called: there is no entry.
    pub fn path(&self) -> Vec<u8> {
        proof { use_type_invariant(&self.0); }
        Vec::new()
    }

    /// Never called: there is no entry.
    pub fn file_name(&self) -> Vec<u8> {
        proof { use_type_invariant(&self.0); }
        Vec::new()
    }

    /// Never called: there is no entry.
    pub fn metadata(&self) -> Result<FileAttr, IoError> {
        proof { use_type_invariant(&self.0); }
        unsupported()
    }

    /// Never called: there is no entry.
    pub fn file_type(&self) -> Result<FileType, IoError> {
        proof { use_type_invariant(&self.0); }
        unsupported()
    }
}

pub fn readdir(_p: &[u8]) -> (r: Result<ReadDir, IoError>)
    ensures
        r matches Err(e) && e == IoError::UnsupportedPlatform,
{
    unsupported()
}

pub fn unlink(_p: &[u8]) -> (r: Result<(), IoError>)
    ensures
        r == Err::<(), IoError>(IoError::UnsupportedPlatform),
{
    unsupported()
}

pub fn rename(_old: &[u8], _new: &[u8]) -> (r: Result<(), IoError>)
    ensures
        r == Err::<(), IoError>(IoError::UnsupportedPlatform),
{
    unsupported()
}

pub fn set_perm(_p: &[u8], _perm: FilePermissions) -> (r: Result<(), IoError>)
    ensures
        r == Err::<(), IoError>(IoError::UnsupportedPlatform),
{
    unsupported()
}

pub fn set_times(_p: &[u8], _times: FileTimes) -> (r: Result<(), IoError>)
    ensures
        r == Err::<(), IoError>(IoError::UnsupportedPlatform),
{
    unsupported()
}

pub fn set_times_nofollow(_p: &[u8], _times: FileTimes) -> (r: Result<(), IoError>)
    ensures
        r == Err::<(), IoError>(IoError::UnsupportedPlatform),
{
    unsupported()
}

pub fn rmdir(_p: &[u8]) -> (r: Result<(), IoError>)
    ensures
        r == Err::<(), IoError>(IoError::UnsupportedPlatform),
{
    unsupported()
}

pub fn remove_dir_all(_path: &[u8]) -> (r: Result<(), IoError>)
    ensures
        r == Err::<(), IoError>(IoError::UnsupportedPlatform),
{
    unsupported()
}

pub fn readlink(_p: &[u8]) -> (r: Result<Vec<u8>, IoError>)
    ensures
        r matches Err(e) && e == IoError::UnsupportedPlatform,
{
    unsupported()
}

pub fn symlink(_target: &[u8], _link: &[u8]) -> (r: Result<(), IoError>)
    ensures
        r == Err::<(), IoError>(IoError::UnsupportedPlatform),
{
    unsupported()
}

pub fn link(_src: &[u8], _dst: &[u8]) -> (r: Result<(), IoError>)
    ensures
        r == Err::<(), IoError>(IoError::UnsupportedPlatform),
{
    unsupported()
}

/// Starts reading the metadata of a path: the path is opened with default options (the
/// protocol of `File::open`), then `File::file_attr_request` and `File::file_attr` follow.
pub fn stat(p: Vec<u8>) -> (r: (FileOpen, OpenAction))
    requires
        valid_path(p@),
    ensures
        r.0.path@ == p@,
        r.0.options == (OpenOptions { read: false, write: false, create: false }),
        r.0.stage == OpenStage::FirstCheck,
        is_query(r.1, p@),
{
    File::open(p, &OpenOptions::new())
}

pub fn lstat(_p: &[u8]) -> (r: Result<FileAttr, IoError>)
    ensures
        r matches Err(e) && e == IoError::UnsupportedPlatform,
{
    unsupported()
}

pub fn canonicalize(_p: &[u8]) -> (r: Result<Vec<u8>, IoError>)
    ensures
        r matches Err(e) && e == IoError::UnsupportedPlatform,
{
    unsupported()
}

pub fn copy(_from: &[u8], _to: &[u8]) -> (r: Result<u64, IoError>)
    ensures
        r == Err::<u64, IoError>(IoError::UnsupportedPlatform),
{
    unsupported()
}

} // verus!
