# ethercrab_soe

Servo Drive over EtherCAT (SoE) mailbox services, verified with Verus.

- `src/headers.rs`: the SoE header and the IDN attribute word, bit by bit, with
  the enumerations they carry; packing and unpacking, proved to be inverse.
- `src/mailbox.rs`: the six byte mailbox header.
- `src/request.rs`: mailbox and SoE header of a single IDN request.
- `src/soe.rs`: the decisions of an SoE transfer. `SoeTransfer` cuts a request
  into mailbox frames (proved to reassemble into the request's data, to fit the
  mailbox, and to number as many frames as the data needs); `parse_response`
  reads the SubDevice's answer; `decode_*` read the IDN elements.
- `src/error.rs`, `SoeErrorCode` in `src/soe.rs`: the error code tables.
- `src/wire.rs`: decoding errors, and the calls into `ethercrab_wire` and
  `core::str` that element decoding rests on.
- `app/`: the async mailbox I/O around the verified decisions.
