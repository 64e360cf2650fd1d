//! Bridge between a host process and a zero-knowledge proving backend: the
//! codecs, the rules of backend selection and the proving workflows.

pub mod backend;
pub mod boundary;
pub mod bytecode;
pub mod dispatch;
pub mod error;
pub mod field;
pub mod response;
pub mod settings;
pub mod witness;
pub mod workflow;
