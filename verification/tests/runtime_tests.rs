use kolibri_pal::api::debugboard;
use kolibri_pal::duration::Duration;
use kolibri_pal::futex::{Futex, KFutex, futex_wait, futex_wait_timeout, futex_wake};
use kolibri_pal::heap_alloc::{block_of, block_size, place_in_block};
use kolibri_pal::io_error::{ErrorKind, IoError};
use kolibri_pal::random::{INITIAL_SEED, emit_u8, fill_bytes};
use kolibri_pal::sbrk::{Heap, SbrkStep};
use kolibri_pal::stdio::{Stderr, Stdin, Stdout, is_ebadf, panic_output, STDIN_BUF_SIZE};
use kolibri_pal::thread::{Thread, available_parallelism, current_os_id, set_name, sleep, stack_setup};
use kolibri_pal::tls_key::{KeyRegistry, MAX_KEYS};

#[test]
fn stdin_is_empty() {
    let mut s = Stdin::new();
    let mut buf = [7u8; 3];
    assert_eq!(s.read(&mut buf), Ok(0));
    assert_eq!(buf, [7, 7, 7]);
    assert_eq!(s.read_buf(), Ok(()));
    assert_eq!(s.read_vectored(), Ok(0));
    assert!(!s.is_read_vectored());
    assert_eq!(s.read_exact(&mut buf), Err(IoError::ReadExactEof));
    assert_eq!(s.read_exact(&mut []), Ok(()));
    assert_eq!(s.read_buf_exact(4), Err(IoError::ReadExactEof));
    assert_eq!(s.read_buf_exact(0), Ok(()));
    let mut v = vec![1u8];
    assert_eq!(s.read_to_end(&mut v), Ok(0));
    assert_eq!(v, vec![1]);
    let mut t = String::from("x");
    assert_eq!(s.read_to_string(&mut t), Ok(0));
    assert_eq!(t, "x");
    assert_eq!(STDIN_BUF_SIZE, 0);
}

#[test]
fn stdout_and_stderr_vectored_writes_report_the_total() {
    let mut o = Stdout::new();
    assert_eq!(o.write_vectored(&[3, 4, 5]), Ok(12));
    assert_eq!(o.write_vectored(&[]), Ok(0));
    assert!(o.is_write_vectored());
    assert_eq!(o.write_all_vectored(), Ok(()));
    assert_eq!(o.flush(), Ok(()));
    let mut e = Stderr::new();
    assert_eq!(e.write_vectored(&[1, 1]), Ok(2));
    assert!(e.is_write_vectored());
    assert_eq!(e.write_all_vectored(), Ok(()));
    assert_eq!(e.flush(), Ok(()));
    assert!(!is_ebadf(&IoError::Os(9)));
    assert_eq!(panic_output(), Some(Stderr::new()));
    assert_eq!(debugboard(), kolibri_pal::api::DebugBoard {});
}

#[test]
fn thread_spawn_replies() {
    assert_eq!(Thread::from_spawn(0xffff_ffff, 4096, 65536), Err(IoError::Simple(ErrorKind::Other)));
    assert_eq!(Thread::from_spawn(7, 4096, 65536), Ok(Thread { id: 7, stack_area: 4096, stack_size: 65536 }));
    let w = (usize::BITS / 8) as usize;
    let s = stack_setup(4096, 65536);
    assert_eq!(s.reserved_slot, 4096 + 65536 - w);
    assert_eq!(s.stack_top, 4096 + 65536 - 2 * w);
}

#[test]
fn thread_parameters() {
    assert_eq!(available_parallelism(), Ok(1));
    assert_eq!(current_os_id(), None);
    set_name(b"worker");
    assert_eq!(sleep(&Duration::from_millis(250)), 25);
    assert_eq!(sleep(&Duration::from_millis(5)), 0);
}

#[test]
fn tls_keys_take_the_first_free_slot() {
    let mut r = KeyRegistry::new();
    assert_eq!(r.create(0), 0);
    assert_eq!(r.create(0x1000), 1);
    assert_eq!(r.create(0), 2);
    r.destroy(1);
    assert_eq!(r.create(0x2000), 1);
    assert_eq!(r.create(0), 3);
}

#[test]
fn tls_keys_run_out_at_the_last_slot() {
    let mut r = KeyRegistry::new();
    for k in 0..MAX_KEYS {
        assert_eq!(r.create(k), k);
    }
    r.destroy(MAX_KEYS - 1);
    assert_eq!(r.create(1), MAX_KEYS - 1);
}

#[test]
fn random_bytes_advance_the_seed_by_the_time_mask() {
    let mut seed = INITIAL_SEED;
    assert_eq!(emit_u8(&mut seed, 0x0102_0304), 46);
    assert_eq!(seed, 46);
    assert_eq!(emit_u8(&mut seed, 0xff_0000_00ff), 45);
    let mut seed = 250u8;
    let mut bytes = [0u8; 3];
    fill_bytes(&mut seed, &mut bytes, &[0x10, 0x10, 0x0101]);
    assert_eq!(bytes, [10, 26, 26]);
    assert_eq!(seed, 26);
}

#[test]
fn sbrk_steps() {
    let h = Heap::new();
    assert_eq!(h, Heap { start: 0, brk: 0 });
    let h = Heap { start: 0x1000, brk: 0x20 };
    assert_eq!(h.sbrk(0), SbrkStep::Current(0x1020));
    assert_eq!(h.sbrk(0x10), SbrkStep::Resize(0x30));
    assert_eq!(h.sbrk(-0x8), SbrkStep::Resize(0x18));
    assert_eq!(h.sbrk(-0x100), SbrkStep::Resize(0));
    let big = Heap { start: 0, brk: usize::MAX - 1 };
    assert_eq!(big.sbrk(2), SbrkStep::Overflow);
    let mut h = Heap { start: 0x1000, brk: 0x20 };
    assert_eq!(h.resized(0x8000, 0x30), 0x8020);
    assert_eq!(h, Heap { start: 0x8000, brk: 0x30 });
}

#[test]
fn sbrk_grow_then_shrink_returns_to_the_break() {
    let h = Heap { start: 0x1000, brk: 0x40 };
    match h.sbrk(0x100) {
        SbrkStep::Resize(b) => {
            let h2 = Heap { start: 0x1000, brk: b };
            assert_eq!(h2.sbrk(-0x100), SbrkStep::Resize(0x40));
        },
        other => panic!("unexpected {:?}", other),
    }
}

#[test]
fn futex_replies_and_timeouts() {
    assert_eq!(KFutex::try_new(3, 0), None);
    assert_eq!(KFutex::try_new(3, 9), Some(KFutex { value: 3, fd: 9 }));
    assert_eq!(KFutex::new(1, 4), KFutex { value: 1, fd: 4 });
    let mut f = Futex::new(5);
    assert!(f.needs_kernel_object());
    f.install(11);
    assert_eq!(f, Futex { initial_value: 5, futex: Some(KFutex { value: 5, fd: 11 }) });
    assert!(!f.needs_kernel_object());
    assert_eq!(futex_wait_timeout(None), 0);
    assert_eq!(futex_wait_timeout(Some(Duration::from_millis(1234))), 123);
    assert!(!futex_wait(0xffff_ffff));
    assert!(futex_wait(0));
    assert!(futex_wake(1));
    assert!(!futex_wake(0));
}

#[test]
fn allocation_layout() {
    assert_eq!(block_size(100, 16), 117);
    assert_eq!(place_in_block(1000, 16), (1008, 8));
    assert_eq!(place_in_block(1007, 16), (1008, 1));
    assert_eq!(place_in_block(1008, 8), (1016, 8));
    assert_eq!(block_of(1008, 8), 1000);
}

#[test]
fn allocation_marker_finds_the_block_for_small_alignments() {
    for block in [0usize, 1, 255, 4097, 123456] {
        for align in [1usize, 2, 4, 8, 16, 32, 64, 128] {
            let (p, d) = place_in_block(block, align);
            assert_eq!(p % align, 0);
            assert_eq!(block_of(p, d), block);
        }
    }
}

#[test]
fn allocation_marker_is_truncated_for_large_alignments() {
    let (p, d) = place_in_block(0, 512);
    assert_eq!((p, d), (512, 0));
    assert_eq!(block_of(p, d), 512);
}
