# kolibri_pal

The platform layer of the Rust standard library for KolibriOS, with its logic verified by
Verus.

KolibriOS is reached through `int 0x40` system calls. Everything that decides something
around those calls is in `src/` with contracts: decoding of the clock registers, the request
blocks of the file system call and the file information it returns, the protocol of opening
a file, socket address records and replies, TCP connection steps, the SHELL console's shared
memory messages, export tables of loaded libraries, thread stacks, thread-local keys, the
program break, the allocator's block markers, futex arguments, program arguments, and the
error codes of the kernel.

`app/` holds the system call gate and what needs memory, global state or the standard
library's traits: it issues the requests that `src/` describes and hands the replies back.

- `src/datetime.rs`, `src/api.rs`: calendar values, the kernel's day count, BCD registers.
- `src/duration.rs`, `src/time.rs`: spans, instants and wall-clock points.
- `src/fs_block.rs`, `src/fs.rs`: file system requests, file information, files.
- `src/net.rs`, `src/connection.rs`: sockets and TCP streams.
- `src/console.rs`, `src/dll.rs`: the SHELL console and the console library.
- `src/io_error.rs`, `src/kos_error.rs`, `src/common.rs`: errors.
- `src/args.rs`, `src/stdio.rs`, `src/thread.rs`, `src/tls_key.rs`, `src/random.rs`,
  `src/sbrk.rs`, `src/heap_alloc.rs`, `src/futex.rs`: the rest of the runtime.
