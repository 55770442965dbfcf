//! Public-key codec and signature verification for COSE keys and COSE_Sign1 envelopes.

pub mod coord;
pub mod cose;
pub mod kind;
pub mod provider;
pub mod sig;
pub mod keymap;
pub mod key;
pub mod verify;
