# truvis_app

CPU-side logic of the Truvis renderer's application layer, written in Verus and
proved against its contracts.

- `src/` — the verified library: render-mode configuration and shader codes,
  offline sample accumulation, the realtime ray tracing dispatch schedule,
  debug-image selection and registration, input edge tracking, camera and gizmo
  decisions, and the web editor's protocol values and connection logic.
- `tests/` — tests that run the library on concrete values.
- `app/` — the unverified edge: environment lookups, JSON encoding of the editor
  protocol with serde, and the floating-point helpers.
