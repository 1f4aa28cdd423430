# errno

The platform's `errno` value and what the C library says about it, with
the decisions proved in Verus.

- `src/` — the verified library: the `Errno` code type, reading a
  `strerror_r` status (`describe_failure`), finding where a message in a
  fixed buffer ends (`message_len`), keeping the part that is UTF-8
  (`from_utf8_lossy`), reading a description from what `strerror_r` left
  (`describe`), rendering a code (`Errno::display_with`), and reading the
  thread's `errno` through std (`errno`).
- `app/` — the C calls at the edge: writing `errno` and calling
  `strerror_r`, with the `Display`, `Debug` and `Error` impls built on
  the library.
- `tests/` — tests of the library.
