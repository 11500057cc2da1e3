//! Relay of build-system and review-request events from a topic-based message
//! broker into chat-room notifications, with per-room subscriptions gathered
//! from chat messages.
//!
//! The library holds the verified core: the subscription registry, the
//! routing-key classifier, the payload parser, the notification formatter,
//! the relay dispatcher and the subscription command handler. Connecting to
//! the broker and to the chat server, and performing the sends and
//! acknowledgments a relay plan calls for, is left to the surrounding
//! program.

use vstd::prelude::*;

pub mod classify;
pub mod commands;
pub mod events;
pub mod help;
mod jsonio;
pub mod notify;
pub mod parse;
pub mod registry;
pub mod relay;
pub mod text;

pub use help::general_help_str;

verus! {

/// Static description of one target server: its domain, the login used on
/// its broker, the URL prefixes of its build service and its broker, and the
/// scope string its broker prepends to routing keys.
pub struct ConnectionDetails {
    pub domain: String,
    pub login: String,
    pub buildprefix: String,
    pub rabbitprefix: String,
    pub rabbitscope: String,
}

} // verus!
