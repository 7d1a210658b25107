//! A value-exchange protocol between a host process and an independently
//! compiled plugin.
//!
//! The `abi` modules hold the fixed-layout encodings that cross the boundary;
//! the remaining modules hold the plugin-side object model built on top of them.
//! Host operations are reached through a numbered function table; every function
//! here that needs one takes the resolved operation as a callable argument.

pub mod abi;
pub mod client;
pub mod env;
pub mod contact;
pub mod error;
pub mod event;
pub mod listener;
pub mod loader;
pub mod macros;
pub mod message;
pub mod runtime;
pub mod text;
