use vstd::prelude::*;

use crate::error::BotError;

verus! {

/// Length in bytes of a bearer token and of the webhook secret.
pub const TOKEN_BYTES: usize = 32;

#[verifier::external_type_specification]
#[verifier::external_body]
pub struct ExSystemRandom(ring::rand::SystemRandom);

/// Relies on ring::rand::SystemRandom::new: a handle on the operating
/// system's secure random source; it does no work and cannot fail.
pub assume_specification[ ring::rand::SystemRandom::new ]() -> ring::rand::SystemRandom;

/// Relies on ring's SecureRandom::fill for SystemRandom: it fills the slice in
/// place, or reports failure; the slice keeps its length either way.
#[verifier::external_body]
fn fill_secure(rng: &ring::rand::SystemRandom, buffer: &mut [u8]) -> (r: bool)
    ensures
        final(buffer)@.len() == old(buffer)@.len(),
{
    ring::rand::SecureRandom::fill(rng, buffer).is_ok()
}

/// The process-wide secure random source.
pub fn init() -> (r: ring::rand::SystemRandom) {
    ring::rand::SystemRandom::new()
}

/// Fills `buffer` with secure random bytes.
pub fn gen_random(rng: &ring::rand::SystemRandom, buffer: &mut [u8]) -> (r: Result<(), BotError>)
    ensures
        final(buffer)@.len() == old(buffer)@.len(),
        match r {
            Ok(()) => true,
            Err(e) => e == BotError::RandomSource,
        },
{
    if fill_secure(rng, buffer) {
        Ok(())
    } else {
        Err(BotError::RandomSource)
    }
}

/// A fresh random token of `TOKEN_BYTES` bytes.
pub fn new_token(rng: &ring::rand::SystemRandom) -> (r: Result<Vec<u8>, BotError>)
    ensures
        match r {
            Ok(t) => t@.len() == TOKEN_BYTES,
            Err(e) => e == BotError::RandomSource,
        },
{
    let mut token: Vec<u8> = Vec::new();
    let mut i: usize = 0;
    while i < TOKEN_BYTES
        invariant
            0 <= i <= TOKEN_BYTES,
            token@.len() == i,
        decreases TOKEN_BYTES - i,
    {
        token.push(0u8);
        i = i + 1;
    }
    match gen_random(rng, token.as_mut_slice()) {
        Ok(()) => Ok(token),
        Err(e) => Err(e),
    }
}

} // verus!
