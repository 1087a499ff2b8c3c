# hephaestus_wgpu

Host-side planning and validation for a WGPU compute provider, verified with
Verus. Every dispatch the provider encodes is first checked and planned by the
library in `src/`: strided layouts against their buffers, workgroup grids,
reduction trees, FFT strategies and pass schedules, fused-expression metadata
and kernel sources, sparse and dense linear-algebra launches, the uniform
records the kernels read, and the WGSL sources generated for each kernel.

Layout:

- `src/` — the verified library. Layout arithmetic is delegated to `leto`
  and launch-shape planning to `moirai-gpu` through small trusted wrappers
  whose contracts restate what those crates compute.
- `tests/` — tests of the library on concrete values.
- `app/` — the device side: WGPU devices, pipeline compilation and caching,
  buffer readback, and the floating-point tables and uniforms (FFT twiddles
  and Bluestein chirps, Laplacian spacing) the kernels consume. It runs the
  passes of the contiguous elementwise kernels, matrix and Kronecker
  products, fused expressions and the 2D Laplacian, and uploads and
  downloads CSR matrices; the other operations are planned in `src/` but
  have no device pass here.
