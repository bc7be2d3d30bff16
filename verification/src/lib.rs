//! The wire messages of the OPAQUE password-authenticated key exchange: their
//! byte layout, what is checked when one is decoded, and the stand-in upload
//! for an account that does not exist.
//!
//! The messages are in `messages`, and what holds of their codec as a whole
//! in `theorems`. The other modules hold what a message is made of. Two
//! things are taken from outside and believed, not proved: what the `voprf`
//! crate makes of 32 bytes as a group element (`group`), and that a random
//! generator fills a buffer without changing its length (`random`).

pub mod ciphersuite;
pub mod envelope;
pub mod errors;
pub mod group;
pub mod key_exchange;
pub mod keypair;
pub mod messages;
mod random;
pub mod server_setup;
pub mod theorems;
