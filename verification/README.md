# truck_fleet

A fleet-telemetry system in two programs: a central server that ingests
truck readings (MQTT, Kafka, HTTP, WebSocket), raises alerts, stores records
and serves dashboards; and a simulator that drives a fleet of virtual trucks
through driving scenarios and publishes their states.

The decisions of both programs are a library verified with Verus (`src/`):
message routing and decoding plans, the alert rules, model calibration and
sensor fusion, enrichment, health scores, truck registration and updates with
their validation, alert and update life cycles, fleet figures, storage keys
and paths, the simulator's sensor, camera, health, model and over-the-air
generators, its scenarios and weighted scenario choice, and the stores the
simulator serves. Readings are fixed point: most values in thousandths,
coordinates in millionths of a degree.

Layout:

- `src/` – the verified library.
- `tests/` – tests of the library on concrete values.
- `app/` – the programs around it: configuration files, network listeners,
  databases, the HTTP API, the simulation loop, logging and metrics.
  `truck-fleet server [config]` or `truck-fleet simulator [config]`.
