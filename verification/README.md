# screenrec

Records the screen and the system sound of a Windows machine into an MP4 file,
with FFmpeg as the encoder.

- `src/` is the library, verified with Verus. It decides; it touches nothing.
  - `args`: what the user asks for, and the defaults.
  - `ffmpeg`: how the version query, the encoder and the muxer are run.
  - `plan`: the steps of a session and their order.
  - `session`: a session as a machine that names the next action and takes in
    what came of it; `session_laws` holds what is true of every session.
  - `capture`: what is done with each frame, and when the capture stops.
  - `audio`: how the recording of the sound is started, and in which format.
  - `samples`: how a block of samples is written.
  - `failure`, `lines`, `text`: what the user reads.
- `app/` is the program: it runs FFmpeg, captures the screen, records the sound
  and moves files, as the library tells it.
- `tests/` holds the tests of the library.

Recording works like this: raw BGRA frames are piped into FFmpeg, which encodes
them as H.264; the sound goes to a WAV file meanwhile; in the end FFmpeg muxes
both into the output file. Without sound the video is renamed instead. Ctrl+C or
the time limit ends the recording with the next frame, and the file is completed
before the program ends.

    screenrec
    screenrec --monitor 2 --fps 60 --crf 18 --output demo.mp4
    screenrec --duration 30 --no-audio
