# flt

The decisions behind shipping a Flutter application that renders in a
terminal, verified with Verus.

- `src/engine.rs`: which prebuilt Flutter embedder engine a target downloads,
  and how it links.
- `src/bundle.rs`: how a distributable bundle is laid out on each host.
- `src/launcher.rs`: the batch file or shell script written beside the binary.
- `src/plan.rs`: what is refused before a bundle is built, which engine file is
  shipped, and which engine build output is the newest.
- `src/json_field.rs`: reading a string field out of `flutter --version
  --machine`.
- `src/text.rs`: character-level helpers on strings.

`app/` is the `dartvel-cli-flt` command: it parses the command line with clap,
runs `flutter` and `cargo`, and copies files, leaving every decision to the
library. It finds the embedder's workspace through `FLT_WORKSPACE`.
