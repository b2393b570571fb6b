# librustdbg

The verified core of a small ptrace debugger for x86-64 Linux.

- `src/` is the library, checked by Verus: wait-status decoding (`bindings`,
  `process`), the register table (`register_info`), the register file of a
  traced process held as the bytes of the kernel's `struct user` (`registers`),
  the decisions taken around each system call that controls a process
  (`process`, `pipe`), the command line and the prompt's history (`cli`,
  `editline`), and text helpers (`text`).
- `app/` is the program: it makes the system calls through the C library,
  hands their outcomes to the library, and runs the prompt.
- `tests/` exercises the library on concrete values.
