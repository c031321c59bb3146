# spindle_monitor

Backend of a CNC spindle health monitor: it receives EtherCAT sample frames
over UDP, analyses vibration, predicts the remaining useful life of the
spindle bearings, raises alarms and publishes them as ISO 22400 messages over
MQTT, stores history in ClickHouse and serves it over HTTP and WebSocket.

## Layout

- `src/` — the library, verified with Verus: frame decoding, the alarm
  decision state machines (sustained-vibration timers, cool-downs, work-order
  throttling, alarm levels), ISO 22400 message construction, the integer
  parts of health scoring, bounded histories, the live application state,
  machine ordering and ranking, and the service counters.
- `tests/` — tests of the library.
- `app/` — the service around the library: configuration loading, the UDP
  receive loop, the floating-point signal processing and prediction models,
  MQTT, ClickHouse, the HTTP/WebSocket servers and the metrics endpoint.

Floating-point readings cross into the library as their IEEE-754 bit
patterns; where a decision depends on comparing such a reading with a
threshold, the service makes the comparison and hands the library its
outcome (a band).
