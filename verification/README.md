# moyu_video

Software decoding of VP9 and AV1 video on top of FFmpeg, as a library with a small C interface.
Frames come out as I420 or NV12, with the stride of every plane.

The library in `src/` is written in Verus and verified. It makes every decision and calls
FFmpeg nowhere: an operation names the FFmpeg call to carry out next and takes the reply, until
it is finished.

- `src/decoder/`: creating a decoder, sending packets, receiving frames, flushing and giving it
  up; who owns which FFmpeg object.
- `src/api.rs`: the interface that embedders see.
- `src/stream.rs`: call after call on one decoder, to the end of the stream and after a flush.
- `src/info.rs`: the description of the FFmpeg that is linked in.
- `src/text.rs`: text in bytes.
- `src/ivf.rs`, `src/paths.rs`, `src/decode_test.rs`, `src/decode_runs.rs`: what the
  sample program is made of.
- `src/ffi.rs`: FFmpeg's constants, calls and replies.

`app/` carries the calls out: it holds the exported C functions and the sample program.
