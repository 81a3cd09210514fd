# AudioPass

AudioPass routes audio into a virtual microphone on PipeWire: the sound of a
physical microphone or of another application is captured, passed through a
ring of samples, and played out as a microphone that other programs can use.

## Layout

- `src/` is the library, verified with Verus:
  - `audio`: the sample ring between the capture stream and the virtual
    microphone, and the arithmetic that keeps it to whole frames;
  - `pipewire`: the commands and events exchanged with the PipeWire worker,
    the sources the registry announces, and the worker's decisions;
  - `ui`: the state of the user interface and how it reacts to the worker;
  - `playback`: the track list cursor and the playback worker;
  - `datastore`: the saved track list, where it lives, and the debounced save;
  - `state`, `constants`, `text`, `search`: shared types, constants and helpers.
- `tests/` runs the library on concrete values.
- `app/` is the program around the library: the PipeWire streams, the
  egui windows, the file dialog, threads and file I/O.

Verify the library with `verus` on `src/lib.rs`; the laws it proves stand as
public proof functions named `law_*` and in the contracts of the functions.
