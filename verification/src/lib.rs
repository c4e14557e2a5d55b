//! Surface and context lifecycle management for an EAGL-backed view.
//!
//! The library holds the decisions: which native calls a step asks for, what
//! each answer of the host means, and how host notifications become events.
//! The driver around it performs the native calls and hands the answers back.

pub mod construction;
pub mod context;
pub mod error;
pub mod framebuffer;
pub mod host;
pub mod lifecycle;
pub mod registrar;
pub mod surface;
pub mod symbols;

pub use context::{Api, Context, ContextCall, CurrentContext};
pub use error::{ContextError, CreationError, FatalError, IoFailure};
pub use host::{is_null, Handle};
pub use lifecycle::{HostNotification, LifecycleEvent, LifecycleEventMapper};
