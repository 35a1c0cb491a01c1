//! Vine: the message layer that carries notifications and requests between an
//! editor host and its side-car processes.

#![allow(non_snake_case, non_camel_case_types, non_upper_case_globals, dead_code, unused_imports)]

use vstd::prelude::*;

pub mod Json;
pub mod Multiplexer;
pub mod Client;
pub mod DevLog;
pub mod Error;
pub mod Generated;
pub mod Host;
pub mod Runtime;
pub mod Strings;
pub mod Server;

verus! {

/// Protocol version carried on every envelope; receivers reject other versions.
pub const ProtocolVersion: u32 = 1;

/// Default largest message, in bytes (4 MB, the transport's default).
pub const DefaultMaxMessageSize: usize = 4194304;

/// Hard upper bound on the timeout of one request, in milliseconds.
pub const DefaultRequestTimeoutMs: u64 = 15000;

/// Default bind address of the editor host's server.
pub const DefaultMountainAddress: &'static str = "[::1]:50051";

/// Default bind address of the extension host's server.
pub const DefaultCocoonAddress: &'static str = "[::1]:50052";

/// Default bind address of the background daemon's server.
pub const DefaultAirAddress: &'static str = "[::1]:50053";

} // verus!
