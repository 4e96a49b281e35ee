# ksud_susfs

The SUSFS support of the KernelSU userspace daemon, with its decision logic
verified by Verus.

- `src/` — the verified library:
  - `bytes` — fixed-size NUL-padded buffers and C strings;
  - `susfs` — SUSFS command records: building them, reading the kernel's reply;
  - `ksucalls` — KernelSU driver commands and the meaning of their replies;
  - `driver` — finding the driver descriptor and the ioctl retry procedure;
  - `config` — the persisted configuration, its defaults, updates and restore plan;
  - `restore` — the once-per-boot restore procedure.
- `app/` — system calls, files, JSON and printing around the library.
- `tests/` — tests of the library.
