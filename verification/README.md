# sofka

The verified core of sofka, a terminal UI for Kubernetes, written in Verus.

- `src/text.rs`: character-safe truncation (`ellipsize`), control-character
  stripping, decimal formatting and line splitting.
- `src/altscroll.rs`: `Repair`, which puts cursor-key escape sequences split at
  a terminal read boundary back together, with its step function as the model
  and laws over whole key streams.
- `src/app.rs`, `src/app/navigation.rs`, `src/app/notify.rs`: the browser's
  state (`App`, modelled by `AppView`), its drill-downs and jumps, and the
  `:notify` toggle, watch-event feed and notification framing.
- `src/config.rs`: the settings that logic reads.
- `src/keyset.rs`: `KeySet`, text keys held once each (a type invariant).

`app/` holds the unverified edge: crossterm key conversion, the kube watch task
behind `:notify`, and reading Kubernetes objects into the library's values.
Discovery lookups, watches and other I/O stay there; the library returns an
`Effect` or a watch description saying what to do next.
