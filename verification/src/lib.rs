//! Vehicle telemetry logger core: a table-driven decoder that turns CAN frame
//! payloads into typed physical measurements, a canonical log-line formatter,
//! a buffered log-writer model, and the recording pipeline's rotation and
//! indicator state machines. I/O (the bus socket, files, the GPIO pin) lives
//! outside this crate; everything here is pure logic over plain values.

pub mod decode;
pub mod format;
pub mod frame;
pub mod indicator;
pub mod measure;
pub mod monitor;
pub mod pipeline;
pub mod writer;
