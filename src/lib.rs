//! A unidirectional payment channel between a funding sender and a recipient.
//!
//! The channel is a state machine: the host environment supplies who is calling
//! and what time it is, and carries out the transfers, terminations and
//! notifications that each successful call hands back.

pub mod account;
pub mod channel;
pub mod crypto;
pub mod laws;

pub use account::AccountId;
pub use channel::{ChannelModel, Error, PaymentChannel, SenderCloseStarted, Settlement};
pub use crypto::signature_authorizes;
