# wtg

WTG ("WhatTheGPU") reports GPU telemetry from NVIDIA NVML, with local
JSONL/CSV sinks and MQTT publication with Home Assistant discovery. The
library also holds the records and text of the AMD ADL/ADLX and Intel Level
Zero providers; this program has no loader for their Windows runtimes, so for
those providers it reports the sample of a runtime that is not found.

The library in `src/` is written in Verus and proved against its contracts.
One item is trusted rather than proved: the wrapper of `String::push`.

- `cli`, `config`, `mqtt_settings`: command-line parsing and validation, the
  merge of an explicit TOML configuration (command-line values win), and the
  saved configuration text.
- `mqtt_packet`, `mqtt`, `cli_mqtt`: MQTT 3.1.1 packet framing, topic and
  payload rules, Home Assistant discovery and state payloads.
- `nvml` (with `field_values`, `probe_context`, `provenance`): snapshots,
  reports, probe context, field queries and the provenance fact tree, built
  from NVML readings.
- `stats`, `probe`, `sink`, `json`, `text`: the text, CSV and JSONL outputs.
- `providers`: the AMD ADL and ADLX sample records, the ADLX GPU record
  from its metric readings, and their text; the Intel Level Zero device
  record from its properties, the Sysman facts of each domain and handle
  (with the typed memory, frequency, power and engine facts decoded from
  the raw Sysman buffers), the sample records, counter deltas and their text.
- `decimal`, `exit_code`: fixed-point renderings of readings, and the exit
  code of each provider status.
- `ui_form`, `view`: the desktop MQTT form, its command-line preview and the
  device view.

`app/` holds the program around the library: argument reading, NVML calls
through `nvml-wrapper`, TOML files through `serde`/`toml`, the MQTT socket,
sink files and floating-point rendering of power readings.

`tests/` runs the library on concrete values.
