# lib

Verified pieces of an xz/LZMA implementation, written in Verus.

`src/` (verified):

- `crc` — CRC32 and CRC64 as used by .xz, computed with a lookup table and
  proved equal to the bit-serial definition; piecewise computation law.
- `memcmplen` — length of the common prefix of two buffers, compared eight
  bytes at a time.
- `bytes` — little-endian loads and stores, and the bounded buffer copy.
- `options` — LZMA options, the lc/lp/pb properties byte (with its
  round-trip laws), and the compression presets.
- `easy_preset` — the single-filter LZMA2 chain of a preset.
- `filter_common`, `filter_decoder` — filter chain rules, the table of
  decoder filters, properties decoding, raw decoder chain setup and its
  memory usage estimate.
- `coder` — streams and next-coder slots.
- `alone_encoder`, `microlzma_encoder` — the .lzma header writer (with the
  dictionary-size rounding, and the law that the header comes out exactly
  once whatever the output buffer sizes) and the MicroLZMA encoder's header
  byte.
- `harness`, `drive` — how the stream harness shapes its input, and the
  decisions of its feeding loops as state machines.

`app/` runs the harness loops against a stream and queries CPU features.
`tests/` exercises the library on concrete values.

The LZMA1/LZMA2 encoders and decoders themselves, and the BCJ and delta
filters, are not part of this crate: where a set-up or an estimate depends on
them, the library takes what they returned as an argument and states what it
does with each value.
