# flecs_core

The core logic of the FLECS app and instance manager, written in Verus. The functions in
`src/` carry contracts that Verus proves, with one exception: the few calls into other
crates (`regex`, `http`, `rand`) and into parts of the standard library (`Path::parent`,
building a `String`, the ends of a range) that Verus has no
specification for sit in small functions marked `#[verifier::external_body]`, whose
contracts are believed, not proved. Each of them says in its doc comment what it claims.

- `manifest`: the parts of app manifests read from text (port mappings, environment
  variables, labels, mounts, devices, config files), feature and dependency keys,
  dependencies and the providers an app offers (authentication providers read from JSON),
  what the daemon reads from compose descriptions, and what it asks of every manifest.
- `instance`: instance ids, states, per-protocol port mappings of an instance and the
  container port bindings they give, USB devices, the provider chosen for each dependency,
  and the decisions around an instance's container: its settings, how a new instance is
  set up, and how its address moves into another network.
- `network`: network kinds, whether an existing network is the one asked for, and the
  settings a new network is created with.
- `app`, `deployment`: the installation state of apps in their deployments, the steps of
  installing and removing them, and the deployments themselves.
- `volume`: importing an archive into a volume and exporting a volume, through a temporary
  container.
- `lore`: the configuration, as configuration files and the environment set it; several
  configurations are merged into one, and the settings of each part are completed with
  defaults.
- `quest`: long running jobs, their states, progress and text, and their bookkeeping.
- `legacy`: reading instances stored by earlier versions.
- `text`, `num`, `json`: the text, number and JSON helpers the parsers build on.

The decisions that alternate with work on the container engine are step functions: they
take what the engine answered and say what to do next. `app/` holds what Verus does not
see: reading the process environment and the system, numbering quests, converting
`serde_json` values, and the loops that run the step functions against an engine.
