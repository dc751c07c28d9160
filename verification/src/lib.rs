//! Custody program core: a program-controlled authority account is derived
//! from an owner identity, holds a one-byte custody record, and later signs
//! downstream transfer / delegate calls by replaying its derivation seeds.
//!
//! The crate is organised around the request path: a payload decodes to a
//! command ([`instruction`]), the authority guard re-derives and checks the
//! custody address ([`pda`]), and the selected handler turns the request
//! into the one effect the surrounding runtime must perform
//! ([`processor`]), building any downstream call through the external
//! metadata program ([`cpi`]).

pub mod address;
pub mod cpi;
pub mod error;
pub mod ids;
pub mod instruction;
pub mod pda;
pub mod processor;
pub mod state;
