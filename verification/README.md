# iced_component

Building blocks for themed, animated Iced components, with their behaviour
stated as contracts and proved with Verus.

- `src/theme`: the typed theme pack and its loader. A theme is read from
  plain TOML text (ASCII without backslashes) token by token; stateful
  component groups follow their state chains (`hover extends idle`,
  `pressed extends hover`, `disabled extends idle`), and shared control
  tokens fall back to component tokens when a theme leaves them out. The
  loader's contract fixes the outcome for a given text: success or the token
  error, or the parser's error for that text, and the theme itself whenever
  the text has no `seed` (Material colours derived from a seed come from
  platform-dependent floating point, so only their presence is stated). Theme contexts, scoped patches
  and the resolved control and surface styles live here too.
- `src/surface.rs`, `src/button.rs`, `src/spinner.rs`: interaction state,
  visual variants, token resolution, motion triggers, icon sources and the
  spinning decisions of the loading spinner.
- `src/component.rs`: the component context shared by an application
  (theme and reduced-motion preference).
- `src/context.rs`: the adapter context that retains two themed backends,
  selects the rendered one and keeps their common settings in sync.
- `src/motion.rs`: motion tokens (named duration buckets), transitions and
  their resolution into animation timing under the reduced-motion
  preference.
- `app/`: error reporting and loading theme files from disk (refusing
  files that are not plain text).
- `tests/`: executable tests of the library.
