//! Randomness for probe identities, through trusted wrappers around the
//! `rand` crate. Nothing is assumed of a drawn value beyond its range.

use vstd::prelude::*;
use crate::ping::Token;

verus! {

/// The lower bound of the ephemeral-port and identifier window.
pub const PORT_MIN: u16 = 33434;

/// The upper bound of the ephemeral-port and identifier window.
pub const PORT_MAX: u16 = 65407;

/// Relies on rand::random: a 16-bit value from the thread-local
/// generator; nothing holds of which one.
#[verifier::external_body]
pub fn random_u16() -> u16 {
    rand::random()
}

/// Relies on rand::random: a 32-bit value from the thread-local
/// generator, used as a TCP initial sequence number.
#[verifier::external_body]
pub fn random_u32() -> u32 {
    rand::random()
}

/// Relies on rand::random_range: a value drawn from the inclusive
/// ephemeral window, which random_range never leaves.
#[verifier::external_body]
pub fn random_port() -> (r: u16)
    ensures
        PORT_MIN <= r <= PORT_MAX,
{
    rand::random_range(PORT_MIN..=PORT_MAX)
}

/// Relies on rand::random: 128 random bits, the identity a ping probe
/// embeds in its echo data.
#[verifier::external_body]
pub fn random_token() -> Token {
    Token { bits: rand::random() }
}

} // verus!
