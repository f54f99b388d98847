//! A small remote-procedure-call runtime over a peer-to-peer transport.
//!
//! - `descriptor` and `codegen`: from a service description, generate the
//!   request-kind enum, the capability trait and the dispatcher.
//! - `wire`: the request envelope, statuses, and the reply and stream frames.
//! - `engine`: routing of requests and the per-connection session.
//! - `laws`: properties of sessions, proved over the engine's step relation.
pub mod codegen;
pub mod descriptor;
pub mod engine;
pub mod laws;
pub mod servers;
pub mod wire;

pub use codegen::{Builder, ServiceGen};
pub use descriptor::{Cardinality, GenError, MethodDescriptor, ServiceDescriptor};
pub use engine::{Handler, Session};
pub use servers::{MyReplication, QuicheServer};
pub use wire::{Request, Status};
