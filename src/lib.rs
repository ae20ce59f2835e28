//! Live configuration surface of an execution node: string codecs for the
//! diagnostic toggles, the shared node settings record behind a reader/writer
//! lock, and the operations that read and change them.

pub mod codec;
pub mod configuration_api;
pub mod node;
