use kolibri_pal::console::{
    Console, Ping, PingAction, ShellCommands, console_shm_flags, console_sleep_ticks, shm_open_reply,
};
use kolibri_pal::dll::{ConsoleLibrary, DLLEntry, DLLTable, load_dll_reply};
use kolibri_pal::kos_error::Error;

#[test]
fn shell_command_bytes() {
    assert_eq!(ShellCommands::Success.code(), 0);
    assert_eq!(ShellCommands::Exit.code(), 1);
    assert_eq!(ShellCommands::Putc.code(), 2);
    assert_eq!(ShellCommands::Puts.code(), 3);
    assert_eq!(ShellCommands::Getc.code(), 4);
    assert_eq!(ShellCommands::Ping.code(), 8);
}

#[test]
fn console_messages() {
    assert_eq!(Console::ping_message(), vec![8]);
    assert_eq!(Console::putc_message(b'A'), vec![2, b'A']);
    assert_eq!(Console::write_message(b"hi"), vec![3, b'h', b'i', 0]);
    assert_eq!(Console::write_message(b""), vec![3, 0]);
    assert_eq!(Console::getc_message(), vec![4]);
    assert_eq!(Console::exit_message(), vec![1]);
    assert_eq!(Console::getc_result(&[0, b'x']), 0);
    assert!(Console::wait_finished(0));
    assert!(!Console::wait_finished(3));
}

#[test]
fn console_lifecycle() {
    let mut c = Console::new(b"42-SHELL".to_vec());
    assert_eq!(c.buffer_size, 655360);
    assert!(!c.needs_exit_message());
    c.mark_initialized();
    assert!(c.needs_exit_message());
    assert_eq!(c.shm_name, b"42-SHELL".to_vec());
    assert_eq!(console_shm_flags(), 5);
    assert_eq!(console_sleep_ticks(), 1);
}

#[test]
fn shared_memory_replies() {
    assert_eq!(shm_open_reply(0x80000, 16384), Ok((0x80000, 16384)));
    assert_eq!(shm_open_reply(0, 5), Err(Error::NotFound));
}

#[test]
fn ping_gives_up_after_ten_looks() {
    let mut p = Ping::new();
    for _ in 0..9 {
        assert_eq!(p.observe(8), PingAction::SleepAndRetry);
    }
    assert_eq!(p.observe(8), PingAction::SleepAndGiveUp);
    assert_eq!(p.failed_looks, 10);
}

#[test]
fn ping_succeeds_on_an_answer() {
    let mut p = Ping::new();
    assert_eq!(p.observe(8), PingAction::SleepAndRetry);
    assert_eq!(p.observe(0), PingAction::Ready);
    assert_eq!(p.failed_looks, 1);
}

fn entry(name: &str, addr: usize) -> DLLEntry {
    DLLEntry { name: name.as_bytes().to_vec(), function_addr: addr }
}

#[test]
fn export_tables() {
    let t = DLLTable { entries: vec![entry("con_init", 1), entry("con_exit", 2), entry("con_init", 3), entry("con_write_string", 4)] };
    assert_eq!(t.find(b"con_init").unwrap().function_addr, 1);
    assert!(t.find(b"con_gets").is_none());
    let mut it = t.iter();
    assert_eq!(it.next().unwrap().name(), b"con_init");
    assert_eq!(it.next().unwrap().function_addr, 2);
    it.next();
    it.next();
    assert!(it.next().is_none());
    assert_eq!(it.position, 4);
    assert_eq!(ConsoleLibrary::init_from_lib(&t), Some(ConsoleLibrary { con_init: 1, con_write_string: 4, con_exit: 2 }));
    let partial = DLLTable { entries: vec![entry("con_init", 1), entry("con_exit", 2)] };
    assert_eq!(ConsoleLibrary::init_from_lib(&partial), None);
    assert_eq!(load_dll_reply(0), None);
    assert_eq!(load_dll_reply(0x4000), Some(0x4000));
}
