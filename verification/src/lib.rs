//! A safety layer for embedding an externally managed, garbage-collected
//! execution engine in Rust.
//!
//! The engine allocates, moves and collects objects under its own heap
//! discipline, so the host cannot track them with ordinary ownership. This
//! crate encodes the engine's conventions in the host type system: short-lived
//! [`Local`] handles are minted inside a scope, scopes nest and invalidate
//! their handles on exit, and every scope sits under a locker that grants one
//! thread at a time exclusive access to an isolate.

pub mod array_buffer;
pub mod handle_scope;
pub mod inspector;
pub mod isolate;
pub mod local;
pub mod locker;
pub mod platform;
pub mod v8;

pub use crate::handle_scope::HandleScope;
pub use crate::handle_scope::ScopeParent;
pub use crate::isolate::CreateParams;
pub use crate::isolate::Isolate;
pub use crate::local::Local;
pub use crate::locker::Locker;
pub use crate::v8::V8;
