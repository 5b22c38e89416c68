# evdi

Virtual displays on linux, on top of [evdi](https://github.com/DisplayLink/evdi), with the part
that decides and computes verified by [Verus](https://github.com/verus-lang/verus).

* `src/` is the library. It knows device nodes and their listing, versions and their
  compatibility, video modes, buffers and their PPM files, the events of a handle and those who
  wait for them, the steps of an update, and the event loop. It makes no call into libevdi: where
  one is due, a function says which, and takes the answer.
* `app/` makes those calls, waits, and reads and writes files.
* `tests/` runs the library.

Warning: This is alpha-quality software. If it breaks something maybe try rebooting your computer.

See also the low-level unsafe bindings [evdi-sys](https://crates.io/crates/evdi-sys), and
[the docs](https://displaylink.github.io/evdi/) for libevdi.
