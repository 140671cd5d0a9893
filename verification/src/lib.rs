//! Link-layer transport for the SHDLC serial instrumentation protocol:
//! byte stuffing, checksums, frame encoding and decoding, device status
//! classification, and chunk-by-chunk frame assembly.

pub mod assembler;
pub mod buffers;
pub mod frame;
pub mod gasunit;
pub mod shdlc;
pub mod status;
pub mod version;
