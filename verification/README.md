# llama_launcher

The settings and decision logic of a desktop launcher for `llama-server`
(llama.cpp), written in Verus. Every function in `src/` carries a contract
that Verus proves, except the few trusted wrappers around std's case
mapping and `String` collection and around serde_json's parser, whose
contracts are assumed (each says so in its doc comment).

## Layout

- `src/settings.rs` – `Preset` and `AppSettings`, their defaults, taking a
  preset from the settings and applying it back, with the laws that relate
  the two.
- `src/defaults.rs` – the value of every field that a stored configuration
  leaves out.
- `src/gpu.rs` – `GpuLayersMode`: the `--gpu-layers` argument and the
  configuration forms it is read from and written to.
- `src/mcp.rs` – a JSON document model read with serde_json, the list of
  configured MCP servers
  and the configuration handed to llama-server (only servers switched on and
  started over stdio).
- `src/states.rs` – the per-server on/off switches of MCP servers.
- `src/search.rs` – file names of the executables and the breadth-first
  search for them below the launcher's directory, as a state machine whose
  caller does the file system work.
- `src/service.rs` – the systemd unit file built from a template, and the
  reading of `systemctl` output.
- `src/devices.rs` – the device list printed by `llama-server
  --list-devices`, the `--device` list and the RPC devices.
- `src/panel.rs` – decisions of the parameter and settings panels: the
  segment rows with their options and fallbacks, parameter groups, launch
  readiness, the two background calculations, presets chosen by name.
- `src/session.rs` – start-up switches, remote desktop detection, log file
  names and lines.
- `src/text.rs` – text operations on character sequences used throughout.
- `app/` – the program around the library: configuration file I/O with
  serde, the executable search driver, logging, `systemctl` calls.
- `tests/` – tests of the library.

Floating-point settings are carried as their IEEE-754 bit patterns
(`F32Bits`); the library copies and compares them and never computes with
them.
