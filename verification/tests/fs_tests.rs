use kolibri_pal::fs::{
    DirBuilder, File, FileAttr, FilePermissions, FileTimes, FileType, OpenAction, OpenOptions,
    OpenStage, SeekFrom, canonicalize, copy, exists_from_status, exists_request, link, lstat,
    readdir, readlink, remove_dir_all, rename, rmdir, set_perm, set_times, set_times_nofollow,
    stat, symlink, unlink,
};
use kolibri_pal::duration::Duration;
use kolibri_pal::fs_block::{DirectoryEntryInfo, FSDataBlockBuilderBuffer, FSSubFunction};
use kolibri_pal::io_error::{ErrorKind, IoError};
use kolibri_pal::time::unix_epoch;

fn path() -> Vec<u8> {
    b"/tmp0/1/a.txt".to_vec()
}

fn prefixed() -> Vec<u8> {
    let mut p = vec![3u8];
    p.extend_from_slice(&path());
    p
}

fn opts(read: bool, write: bool, create: bool) -> OpenOptions {
    let mut o = OpenOptions::new();
    o.read(read);
    o.write(write);
    o.create(create);
    o
}

fn open_file(o: OpenOptions) -> File {
    let (mut op, _) = File::open(path(), &o);
    let _ = op.resume(0);
    match op.resume(0) {
        OpenAction::Done(Ok(f)) => f,
        other => panic!("unexpected {:?}", other),
    }
}

#[test]
fn open_options_setters() {
    let mut o = OpenOptions::new();
    assert_eq!(o, OpenOptions { read: false, write: false, create: false });
    o.read(true);
    assert_eq!(o, OpenOptions { read: true, write: false, create: false });
    o.write(true);
    o.create(true);
    assert_eq!(o, OpenOptions { read: true, write: true, create: true });
    o.append(false);
    o.truncate(false);
    o.create_new(false);
    assert_eq!(o, OpenOptions { read: true, write: true, create: true });
    o.read(false);
    assert_eq!(o, OpenOptions { read: false, write: true, create: true });
}

#[test]
fn permissions_and_types() {
    let mut p = FilePermissions { is_readonly: false };
    assert!(!p.readonly());
    p.set_readonly(true);
    assert!(p.readonly());
    let d = FileType { is_folder: true };
    assert!(d.is_dir() && !d.is_file() && !d.is_symlink());
    let f = FileType { is_folder: false };
    assert!(!f.is_dir() && f.is_file() && !f.is_symlink());
    let mut t = FileTimes::default();
    t.set_accessed(unix_epoch());
    t.set_modified(unix_epoch());
    assert_eq!(t, FileTimes {});
}

#[test]
fn existence_statuses() {
    assert_eq!(exists_from_status(0), Ok(true));
    assert_eq!(exists_from_status(5), Ok(false));
    assert_eq!(exists_from_status(10), Err(IoError::Os(10)));
}

#[test]
fn exists_request_is_a_stat_with_an_information_buffer() {
    let blk = exists_request(&path());
    assert_eq!(blk.subfunction, FSSubFunction::Stat);
    assert_eq!(blk.buffer, FSDataBlockBuilderBuffer::Mutable(40));
    assert_eq!(blk.buffer_size, 0);
    assert_eq!(blk.offset.bytes, [0; 8]);
    assert_eq!(blk.filepath, prefixed());
}

#[test]
fn open_existing_file_asks_twice_then_opens() {
    let o = opts(true, false, false);
    let (mut op, first) = File::open(path(), &o);
    assert!(matches!(first, OpenAction::QueryExists(_)));
    assert_eq!(op.stage, OpenStage::FirstCheck);
    let second = op.resume(0);
    assert!(matches!(second, OpenAction::QueryExists(_)));
    assert_eq!(op.stage, OpenStage::SecondCheck);
    match op.resume(0) {
        OpenAction::Done(Ok(f)) => {
            assert_eq!(f.path, path());
            assert_eq!(f.position, 0);
            assert_eq!(f.options, o);
        },
        other => panic!("unexpected {:?}", other),
    }
    assert_eq!(op.stage, OpenStage::Finished);
}

#[test]
fn open_missing_file_without_create_is_not_found() {
    let (mut op, _) = File::open(path(), &opts(true, false, false));
    match op.resume(5) {
        OpenAction::Done(Err(e)) => assert_eq!(e, IoError::Simple(ErrorKind::NotFound)),
        other => panic!("unexpected {:?}", other),
    }
}

#[test]
fn open_missing_file_with_create_issues_a_creation_request() {
    let o = opts(false, true, true);
    let (mut op, _) = File::open(path(), &o);
    assert!(matches!(op.resume(5), OpenAction::QueryExists(_)));
    match op.resume(5) {
        OpenAction::Create(blk) => {
            assert_eq!(blk.subfunction, FSSubFunction::Stat);
            assert_eq!(blk.buffer, FSDataBlockBuilderBuffer::Immutable(0));
            assert_eq!(blk.filepath, prefixed());
        },
        other => panic!("unexpected {:?}", other),
    }
    assert_eq!(op.stage, OpenStage::Creating);
    match op.resume(0) {
        OpenAction::Done(Ok(f)) => assert_eq!(f.options, o),
        other => panic!("unexpected {:?}", other),
    }
}

#[test]
fn open_fails_when_creation_fails() {
    let (mut op, _) = File::open(path(), &opts(false, true, true));
    op.resume(5);
    op.resume(5);
    match op.resume(8) {
        OpenAction::Done(Err(e)) => assert_eq!(e, IoError::Os(8)),
        other => panic!("unexpected {:?}", other),
    }
}

#[test]
fn open_fails_on_query_errors() {
    let (mut op, _) = File::open(path(), &opts(true, false, false));
    match op.resume(9) {
        OpenAction::Done(Err(e)) => assert_eq!(e, IoError::Os(9)),
        other => panic!("unexpected {:?}", other),
    }
    let (mut op, _) = File::open(path(), &opts(true, false, false));
    op.resume(0);
    match op.resume(12) {
        OpenAction::Done(Err(e)) => assert_eq!(e, IoError::Os(12)),
        other => panic!("unexpected {:?}", other),
    }
}

#[test]
fn stat_opens_with_default_options() {
    let (op, action) = stat(path());
    assert_eq!(op.options, OpenOptions::new());
    assert!(matches!(action, OpenAction::QueryExists(_)));
}

#[test]
fn read_moves_the_position() {
    let mut f = open_file(opts(true, false, false));
    let mut buf = [0u8; 16];
    let blk = f.read_request(&mut buf);
    assert_eq!(blk.subfunction, FSSubFunction::ReadFile);
    assert_eq!(blk.buffer_size, 16);
    assert_eq!(f.read(0, 16), Ok(16));
    assert_eq!(f.position, 16);
    assert_eq!(f.read(6, 3), Ok(3));
    assert_eq!(f.position, 19);
    assert_eq!(f.read(10, 5), Err(IoError::Os(10)));
    assert_eq!(f.position, 19);
    let blk = f.read_request(&mut buf);
    assert_eq!(blk.offset.bytes, [0, 0, 0, 0, 0, 0, 0, 19]);
}

#[test]
fn write_needs_write_access() {
    let f = open_file(opts(true, false, false));
    assert_eq!(f.write_request(b"hi").unwrap_err(), IoError::Simple(ErrorKind::PermissionDenied));
    let mut f = open_file(opts(false, true, false));
    let blk = f.write_request(b"hello").unwrap();
    assert_eq!(blk.subfunction, FSSubFunction::RewriteFile);
    assert_eq!(blk.buffer, FSDataBlockBuilderBuffer::Immutable(5));
    assert_eq!(blk.buffer_size, 5);
    assert_eq!(f.write(0, 5), Ok(5));
    assert_eq!(f.position, 5);
    assert_eq!(f.write(6, 2), Err(IoError::Os(6)));
    assert_eq!(f.position, 5);
}

#[test]
fn seek_and_tell() {
    let mut f = open_file(opts(true, false, false));
    assert_eq!(f.seek(SeekFrom::Start(100)), Ok(100));
    assert_eq!(f.tell(), Ok(100));
    assert_eq!(f.seek(SeekFrom::Current(-30)), Ok(70));
    assert_eq!(f.seek(SeekFrom::Current(-1000)), Ok(0));
    assert_eq!(f.seek(SeekFrom::Start(u64::MAX - 1)), Ok(u64::MAX - 1));
    assert_eq!(f.seek(SeekFrom::Current(5)), Ok(u64::MAX));
    assert_eq!(f.seek(SeekFrom::Current(i64::MIN)), Ok(u64::MAX - (1u64 << 63)));
    assert_eq!(f.tell(), Ok(u64::MAX - (1u64 << 63)));
}

#[test]
fn file_attributes_from_the_stat_reply() {
    let f = open_file(opts(true, false, false));
    let blk = f.file_attr_request();
    assert_eq!(blk.subfunction, FSSubFunction::Stat);
    let mut info = vec![0u8; 40];
    info[0] = 0x11;
    info[32] = 0x2a;
    info[28..32].copy_from_slice(&[1, 1, 0xB2, 0x07]);
    let attr = f.file_attr(0, &info).unwrap();
    assert_eq!(attr.size(), 42);
    assert!(attr.perm().readonly());
    assert!(attr.file_type().is_dir());
    assert_eq!(f.file_attr(5, &info), Err(IoError::Os(5)));
}

#[test]
fn file_attr_time_stamps_are_unix_seconds() {
    let mut info = vec![0u8; 40];
    info[8..16].copy_from_slice(&[0, 0, 0, 0, 1, 1, 0xD0, 0x07]);
    info[16..24].copy_from_slice(&[1, 0, 0, 0, 1, 1, 0xB2, 0x07]);
    info[24..32].copy_from_slice(&[0, 1, 0, 0, 2, 1, 0xB2, 0x07]);
    let attr = FileAttr(DirectoryEntryInfo::from_bytes(&info));
    assert_eq!(attr.created().unwrap().0, Duration::from_secs(946684800));
    assert_eq!(attr.accessed().unwrap().0, Duration::from_secs(1));
    assert_eq!(attr.modified().unwrap().0, Duration::from_secs(86460));
}

#[test]
fn unsupported_file_operations() {
    let f = open_file(opts(true, true, false));
    let u = Err(IoError::UnsupportedPlatform);
    assert_eq!(f.fsync(), u);
    assert_eq!(f.datasync(), u);
    assert_eq!(f.lock(), u);
    assert_eq!(f.lock_shared(), u);
    assert_eq!(f.unlock(), u);
    assert_eq!(f.truncate(3), u);
    assert_eq!(f.read_vectored(), Err(IoError::UnsupportedPlatform));
    assert_eq!(f.write_vectored(), Err(IoError::UnsupportedPlatform));
    assert!(!f.is_read_vectored());
    assert!(!f.is_write_vectored());
    assert_eq!(f.flush(), Ok(()));
    assert_eq!(f.size(), None);
    assert_eq!(f.duplicate(), Err(IoError::UnsupportedPlatform));
    assert_eq!(f.set_permissions(FilePermissions { is_readonly: true }), u);
    assert_eq!(f.set_times(FileTimes {}), u);
}

#[test]
fn unsupported_path_operations() {
    let p: &[u8] = b"/a";
    let u = Err(IoError::UnsupportedPlatform);
    assert!(matches!(readdir(p), Err(IoError::UnsupportedPlatform)));
    assert_eq!(unlink(p), u);
    assert_eq!(rename(p, p), u);
    assert_eq!(set_perm(p, FilePermissions { is_readonly: false }), u);
    assert_eq!(set_times(p, FileTimes {}), u);
    assert_eq!(set_times_nofollow(p, FileTimes {}), u);
    assert_eq!(rmdir(p), u);
    assert_eq!(remove_dir_all(p), u);
    assert_eq!(readlink(p), Err(IoError::UnsupportedPlatform));
    assert_eq!(symlink(p, p), u);
    assert_eq!(link(p, p), u);
    assert!(matches!(lstat(p), Err(IoError::UnsupportedPlatform)));
    assert_eq!(canonicalize(p), Err(IoError::UnsupportedPlatform));
    assert_eq!(copy(p, p), Err(IoError::UnsupportedPlatform));
    assert_eq!(DirBuilder::new().mkdir(p), u);
}

#[test]
fn read_into_a_cursor() {
    let mut f = open_file(opts(true, false, false));
    assert_eq!(f.read_buf(0, 4), Ok(4));
    assert_eq!(f.read_buf(6, 2), Ok(2));
    assert_eq!(f.position, 6);
    assert_eq!(f.read_buf(5, 9), Err(IoError::Os(5)));
    assert_eq!(f.position, 6);
}

#[test]
fn read_into_an_empty_cursor_sends_nothing() {
    let f = open_file(opts(true, false, false));
    let mut empty: [u8; 0] = [];
    assert!(f.read_buf_request(&mut empty).is_none());
    let mut room = [0u8; 3];
    assert!(f.read_buf_request(&mut room).is_some());
    assert_eq!(f.position, 0);
}
