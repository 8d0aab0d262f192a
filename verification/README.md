# tephrite_rs

The serialization, replication and shared-memory core of the Tephrite
multi-process renderer, written in Verus: each function states what it does
in its contract, and Verus proves it.

A logic process mirrors its world into render processes.  It writes each
frame of changes as a stream of instructions into a ring of buffers in
shared memory; every render process reads the frame, applies it to its own
world and acknowledges it before the next frame is published.

## Layout

- `src/` — the verified library.
  - `native`, `fast_io`, `fast_ser`: byte sinks and sources, and the
    encodings of primitives, strings, options, results, tuples, vectors and
    arrays, with the law that what is written reads back.
  - `transcript`: the same values appended to growable byte vectors.
  - `mesh`: vertex attribute values and index buffers on the wire;
    `gizmo`: gizmo line joints, styles and line settings.
  - `replication`: instruction opcodes, headers and their decoding.
  - `registry`: the tables of mirrored kinds; `reader`: what each
    instruction does to the render world; `writer`: which entities are
    mirrored and the order of a frame; `assets`: remote asset ids.
  - `shared_buffer`: the producer's and consumers' state machines for the
    strict-lockstep ring, and the size of the shared block;
    `transcript_writer`: a frame as a byte sink.
  - `session`: session ids, shared memory names and launch decisions;
    `timing`: which schedule gaps are slow; `render_watch`: how a render
    process follows its optional settings resources.
  - `remote_control`, `controls`, `property`, `scene_api`, `text`: the
    remote-control page, its requests and the scene API's JSON;
    `use_cases`: the transform controls an entity offers;
    `interactor`: the simulated joystick's properties and button commands.
- `tests/` — tests of the library.
- `app/` — the process glue: environment, POSIX shared memory, the atomics
  of the ring and the loops that drive the library's state machines, and
  the float-valued property types of the remote-control page.
