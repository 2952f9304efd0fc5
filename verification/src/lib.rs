//! Control core of a windowing compositor.
//!
//! The core owns the entities of a compositor, outputs and views, in
//! generational registries, takes the notifications of a backend through a
//! listener bridge, and turns them into an ordered stream of events that a
//! consumer drains pass by pass. It never touches the backend itself: a
//! handler answers a notification with commands, which the caller carries
//! out.
//!
//! - [`handle`], [`registry`]: generational handles and the registry that
//!   issues them and tells a live one from a stale one, on top of the slot
//!   arena in [`arena`].
//! - [`event`], [`queue`]: the events and the queue in which they wait.
//! - [`signal`]: signals, registrations and commands.
//! - [`view`], [`output`]: the two kinds of entity with their handlers, and
//!   the render pass of an output.
//! - [`server`], [`state`]: the server, and what it is as a mathematical
//!   value.
//! - [`startup`]: the steps of a start-up and of a shut-down.
//! - [`laws`]: what holds of every server, whatever the backend delivers.

pub mod arena;
pub mod event;
pub mod handle;
pub mod laws;
pub mod output;
pub mod queue;
pub mod registry;
pub mod server;
pub mod signal;
pub mod startup;
pub mod state;
pub mod view;
