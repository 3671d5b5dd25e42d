# sudo elevation broker

A verified library for `sudo` on Windows with Administrator Protection: the
client asks an elevation broker service, over a named pipe, to start a
process for it.

- `src/` is the library, verified with Verus: the protocol messages and their
  checks (`broker_protocol`, `environment`), the framing of messages on the
  pipe (`framing`), the Windows Hello consent outcome and the signed
  authentication token (`hello_auth`, with `crypto` around `sha2` and
  `hmac`), the detection of the elevation environment (`ap_detection`), and
  the decisions of the client (`broker_client`), the broker (`pipe_server`,
  `elevation`, `audit_logger`) and the service (`service`, `config`,
  `shutdown`).
- `app/` is the program around it: the broker service and the calls into
  Windows (pipes, registry, tokens, processes, event log, Windows Hello),
  and the bincode encoding of the messages.
- `tests/` runs the library on concrete values.
