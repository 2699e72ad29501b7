# ysos

The verified core of YSOS (YatSenOS), a small x86-64 teaching kernel with a
UEFI boot loader and a user-space library.

- `src/` is checked by Verus. It holds the kernel's decisions and data
  structures: MBR partition entries (`mbr`), the UART 16550 protocol
  (`serial`), stack-trace collection over the frame-pointer chain
  (`stack_trace`) and the panic report (`panic`), number formatting (`text`),
  per-process resources and the input buffer (`resource`), environment
  variables (`proc_data`), system-call numbers (`syscall`), the user-space
  standard streams and line editing (`io`), and the memory-map and interrupt
  stack accounting (`memory`, `gdt`).
- `app/` is ordinary Rust around it: port and memory I/O, the GDT and TSS
  statics, UEFI boot services, logging and the `int 0x80` system-call
  instruction. It performs what `src/` decides.
- `tests/` exercises the library on concrete values.
