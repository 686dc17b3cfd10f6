# cargo_icmd

The verified core of `cargo icmd docs`, the interactive field guide to the
`icmd` terminal UI framework.

- `src/registry.rs`, `src/guide_data.rs`: the chapter and section registry and
  its lookups.
- `src/search.rs`: the search index, tiered ranking, deduplication and the cap,
  with the laws the ranking obeys.
- `src/navigation.rs`: chapter and section navigation, pending destinations and
  the scroll-spy, over committed geometry handed in as plain values.
- `src/shell.rs`: keyboard accelerators, responsive measurements and the search
  overlay's selection.
- `src/demos.rs`, `src/measure.rs`, `src/api_map.rs`, `src/docs.rs`: the state
  machines and readouts behind the chapters' demonstrations.
- `src/command.rs`: command-line parsing and what each invocation prints.
- `src/text.rs`: character-level helpers (trimming, matching, excerpts).
- `app/`: the program entry point and the terminal key adapter.
