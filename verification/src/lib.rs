//! Remote-procedure injection toolkit: a controller loads a module into a
//! running target process, invokes exported procedures by name, and drives a
//! load / await-unload / teardown lifecycle.
//!
//! The crate holds the protocol core: the argument codec, the export registry
//! and its decode-invoke-encode dispatch, the payload-side state, the
//! controller-side lifecycle state machine, the process locator, and the path
//! planning for staged module copies. Process enumeration, file copying and
//! the injection primitive itself are collaborators that hand these functions
//! plain values.

pub mod codec;
pub mod config;
pub mod errors;
pub mod lifecycle;
pub mod locator;
pub mod paths;
pub mod payload;
pub mod registry;
