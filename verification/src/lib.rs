//! A small WebSocket echo/game server library.
//!
//! The verified core holds the decisions of the server: which connections are
//! admitted, which token a session gets, what happens to a session when its
//! reader dies, and how a per-connection reader reacts to what it observes.
//! It also holds the reading side of the `Message`/`Login` FlatBuffers schema,
//! with a verified well-formedness check that makes every accessor safe,
//! and the writing side, whose tables are proved to read back, from the
//! bytes of the finished buffer (`builder::finished_data`), as the arguments
//! they were written with.
pub mod builder;
pub mod error;
pub mod message;
pub mod readback;
pub mod slab_ops;
pub mod server;
pub mod wire;
