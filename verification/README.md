# newdaq

Data acquisition for a 40-antenna correlator, as a Verus-verified library
(`src/`) and the programs around it (`app/`).

- `src/ctrl_msg.rs` — the control protocol: message types, their
  little-endian wire layouts in both directions, their operator texts, and
  the 113-byte command frame. Proved: every message and every frame reads
  back as it was written.
- `src/frame.rs` — the headers and raw frames the instrument streams.
- `src/assemble.rs` — the decisions that assemble correlation packets into
  integrations (lost packets, integration boundaries, placement, port pairs).
- `src/storage.rs` — the day-by-day choice of the output disk.
- `src/corr.rs` — product and station lookup for the monitor.
- `src/mac.rs` — MAC address parsing.
- `src/wire.rs`, `src/text.rs` — byte layouts of integers and decimal text.
- `app/` — the programs (`sample`, `send`, `server`, `save_data`,
  `capture_pcap`, `monitor`, `test_find_disk`), which do the network, disk,
  clock and plotting work and hold the floating-point samples.

Not carried over: the programs `capture_lace` and `capture_udp`, whose
sources never built (they use a `LaceDataFrame` type and a `mac2array`
function that the library never defined, and `capture_udp` needs the
`pnet` and `etherparse` crates); and, in `sample`, four calls of an
`enable_board` method that the library never defined either.
