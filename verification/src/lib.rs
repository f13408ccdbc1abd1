//! The client side of a _Modbus_ connection.
//!
//! A connection is owned by an actor that serves one command at a time. Clients
//! hold a [`service::Handle`], queue commands with it, and await the reply. This
//! crate makes every decision of that exchange: what is sent, which reply belongs
//! to which request, what the caller is told, and when the actor stops. Reading
//! and writing the transport is left to the program around it.

pub mod error;
pub mod frame;
pub mod service;
pub mod slave;
pub mod text;
