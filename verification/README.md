# light_gen_subz

Turns a video or audio file into an `.srt` subtitle track, with local or cloud
speech-to-text and optional translation.

- `src/` is the verified library (Verus): settings and their file format, the
  keychain address of each API key and the meaning of each keychain answer, the model tables, the routing of a run to its engines, the
  request and answer shapes of every cloud engine, the AssemblyAI polling
  decisions, the NLLB token sequences, output paths, and the re-timing of
  translated lines. Each public function carries a contract; the laws that span
  several functions are public proof functions.
- `tests/` exercises the library on concrete values.
- `app/` is the desktop application around it: file and network I/O, ffmpeg,
  the keychain-backed commands, serde copies of the library's types, and the
  native inference engines (whisper.cpp, ONNX Runtime) that work on floats.
