# gs_renderer

Verified core of a WebGPU Gaussian splatting renderer.

- `src/render_state.rs` — when a frame must be drawn: surface size, the
  "needs update" mark, and how every renderer operation changes them.
- `src/stereo.rs` — side-by-side stereo frames: eye size, copy offsets and
  reuse of the offscreen texture.
- `src/surface.rs` — canvas size and the choice of surface format and alpha mode.
- `src/buffer.rs`, `src/bytes.rs` — sizes and initial/update contents of the
  fixed-size GPU buffers, and the size check that wraps an existing buffer.
- `app/` — the browser bindings, the wgpu calls and the floating-point camera.
