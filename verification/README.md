# effie

A small UEFI library and the Linux boot loader built on it, verified with Verus.

- `src/status.rs`: status codes, their classes (success, warning, error) and descriptions.
- `src/wide.rs`: UEFI strings (NUL-terminated UTF-16) built from Rust strings.
- `src/tables.rs`: table headers, signatures and specification revisions.
- `src/protocols.rs`: GUIDs and the protocols known by them; file modes; input keys.
- `src/kernel.rs`: the setup header of a Linux kernel image.
- `src/allocator.rs`: the pool request (memory type and size) that serves an allocation.
- `src/boot.rs`: the boot loader as a state machine: it names the next firmware request,
  and takes the firmware's answer.
- `src/console.rs`: printing text and numbers one code unit at a time, stopping at the
  first failed request.
- `app/`: the firmware entry point and the calls into the firmware, which run the boot
  flow.
