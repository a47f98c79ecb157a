# foxy

The logic of a small Windows/Vulkan game engine, written in Verus and proved
against its contracts.

- `src/` is the verified library:
  - `words` — the low/high word and byte of Win32 message parameters;
  - `util` — log filter directives and logging sessions, lap timers;
  - `utils`, `messaging` — mailboxes over crossbeam and std channels, engine
    errors, window behaviour enums;
  - `window` — decoding of Win32 messages, the input table, the window's state
    machine, the window thread's decisions, the window builder;
  - `vulkan` — API version selection, layer and extension requests, queue
    family search, device selection and suitability, memory type and format
    choice, the undo steps of resource creation, the driver's debug messages,
    shader sources, SPIR-V words and shader cache paths,
    builders and the deletion queue;
  - `ookami` — the fixed-timestep clock and game loop, the application's frame
    loop as a state machine, the messengers between game and render loops, the
    application builder.
- `tests/` runs the library on concrete values.
- `app/` is the runtime around it: tracing subscribers, threads, the endless
  loops, shader files on disk and the calls into the Vulkan driver.
