//! Bridges paired "before/after" pipeline hooks to nested `tracing` spans.
//!
//! A media pipeline reports each unit of work twice: once before it starts and
//! once after it ends. This crate turns every such pair into one span of the
//! `tracing` backend: the "before" hook opens a span that carries the fields of
//! the operation, the "after" hook closes it again.
//!
//! * [`schema`] fixes the ordered field names of the two kinds of operation.
//! * [`callsite`] interns span shapes in an append-only registry and binds them
//!   to the backend's metadata.
//! * [`operation`] assembles the record of one hook firing and derives the
//!   ordered field values from it.
//! * [`tracer`] keeps the stack of entered spans of one thread and holds the
//!   table of hooks.
//! * [`backend`] declares what is taken on trust from `tracing-core`.
pub mod backend;
pub mod callsite;
pub mod names;
pub mod operation;
pub mod schema;
pub mod tracer;
