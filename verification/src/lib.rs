//! Servo-drive-over-EtherCAT (SoE) mailbox protocol: wire formats of the
//! SoE and mailbox headers, the fragmentation of outgoing requests, the
//! decoding of responses and the service channel error tables.

pub mod error;
pub mod headers;
pub mod wire;
pub mod mailbox;
pub mod request;
pub mod soe;
