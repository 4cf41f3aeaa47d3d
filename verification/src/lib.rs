//! Forward-secret group messaging core: an epoch-indexed key schedule, a
//! membership state machine driven by commits and welcomes, and message
//! protection keyed off the per-epoch application secret.

pub mod artifacts;
pub mod bytes;
pub mod cipher;
pub mod entropy;
pub mod error;
pub mod group;
pub mod key_schedule;
pub mod laws;
pub mod roster;
pub mod state;
pub mod text;
