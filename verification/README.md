# wgpu_backend

The decision core of a wgpu sprite renderer, verified with Verus.

`src/` holds everything the renderer decides, with contracts:

- `backend` — `RustWgpuBackend`, the backend's state (surface size and pending
  reconfiguration, whether a frame is open, the texture registry and its bind
  group slots, the vertex cache, the index buffer size) and one transition per
  request (`init_window`, `update_viewport`, `swap`, `render`, `create_texture`,
  `update_texture`, `destroy_texture`). Each returns a plan of the GPU work to
  do; `check_*` functions say, for any input, whether a request is valid and
  which fault it has otherwise.
- `render` — primitive and wrap-mode codes, the scissor rectangle, draw counts.
- `vertex_buffer` — the per-frame staging cache of vertex bytes.
- `index_buffer` — the quad index list and the power-of-two growth of its buffer.
- `texture` — texel formats and image sizes.
- `greeting` — the greeting text.
- `laws` — properties that span several requests.

`app/` owns the wgpu device, queue, surface, pipelines, samplers, bind groups
and buffers, holds the float state (projection matrix, clear color), exposes
the C++ bridge, and carries out the plans.
