//! Bookkeeping layer for a media-engine client: event observation registry,
//! wakeup/iteration protocol, one-shot callback registration contexts, and the
//! textual command channel.
//!
//! Everything here is plain, verified state-machine logic. The process-global
//! pieces (the native handle, locks, condition variables and the C callback
//! boundary) live with the embedding application, which drives these types and
//! performs the native calls they plan.

use vstd::prelude::*;

pub mod commands;
pub mod data;
pub mod errors;
pub mod events;
pub mod instance;
pub mod numstr;
pub mod protocol;
pub mod registry;

verus! {

/// Major part of the engine API version this crate is written against.
pub const MPV_CLIENT_API_MAJOR: u32 = 1;

/// Minor part of the engine API version this crate is written against.
pub const MPV_CLIENT_API_MINOR: u32 = 21;

/// The packed engine API version this crate is written against.
pub const MPV_CLIENT_API_VERSION: u32 = (MPV_CLIENT_API_MAJOR << 16) | MPV_CLIENT_API_MINOR;

/// Pack a major/minor version pair into the engine's single-integer encoding.
pub fn mpv_make_version(major: u32, minor: u32) -> (v: u32)
    requires
        major < 0x10000,
        minor < 0x10000,
    ensures
        v == (major << 16) | minor,
{
    (major << 16) | minor
}

} // verus!
