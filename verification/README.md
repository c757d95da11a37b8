# gifmp4

A command-line tool that converts animated GIF to MP4 and MP4 to GIF by
running FFmpeg, built around a library whose decisions are proved with Verus.

- `src/` is the verified library:
  - `media` decides the direction of a conversion from the extensions of the
    input and output paths (ASCII case ignored);
  - `converter` checks a request, resolves the output path and builds the
    FFmpeg arguments;
  - `ffmpeg` decides which FFmpeg to run (`GIFMP4_FFMPEG_PATH`, then the
    package's `libexec/ffmpeg`, then `ffmpeg` on `PATH`) and how its exit is
    reported;
  - `cli` holds the parsed commands as plain data;
  - `paths` and `text` hold the path and string operations these rely on.
- `app/` is the program: argument parsing with clap, the file-system checks,
  and running FFmpeg.
- `tests/` runs the library on concrete values.
