# runtime

A Vulkan compute runtime with a small shader front end. The logic that decides
things — workgroup counts, device and queue selection, subgroup support and
the benchmark shader variants it selects, descriptor sizing, SPIR-V word framing,
the CPU reference kernels (scan, histogram, CSR row pointers), result
comparison, error messages, and the shader lexer, parser, constant folder and
emitter — lives in `src/` and is verified with Verus against contracts stated
over mathematical models.

Layout:

- `src/shaderc/` — shader source handling: lexer, expression parser, constant
  folding and propagation, token emission, status decoding of the compiler
  front end.
- `src/bench/` — CPU reference computations used to check GPU results, and
  the choice of scan and SpMV shaders and SpMV dispatch size.
- `src/dispatcher.rs`, `src/context.rs`, `src/pipeline.rs`, `src/profiler.rs`,
  `src/demos/` — host-side decisions around the GPU calls.
- `src/error.rs` — the error type and its messages.
- `app/` — the program: command line, Vulkan and allocator calls, file I/O,
  floating-point kernels and reports. The decisions listed above are the
  library's; app/ performs them.
- `tests/` — tests of the library on concrete values.
