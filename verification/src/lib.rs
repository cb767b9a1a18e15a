//! The decisions of a click-through dictation overlay: how its settings are
//! layered, where its surface is anchored, when it is shown, hidden and
//! redrawn, which received frames are reported, and how its pill of rounded
//! columns is laid out and eased.
//!
//! Nothing here touches a window, a socket or a clock. Each function takes what
//! was read from them as plain values and returns what is to be done.
//!
//! The library computes with integers only. Numbers that it merely carries, or
//! hands to a function of the caller's (gains, levels, loudness), are of a type
//! parameter `F`.

pub mod animation;
pub mod config;
pub mod exit;
pub mod frames;
pub mod layout;
pub mod monitor;
pub mod outline;
pub mod placement;
pub mod render;
