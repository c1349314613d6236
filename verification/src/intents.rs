//! Gateway intents, held as the raw `u64` bit set that the gateway speaks.
use vstd::prelude::*;
use twilight_model::gateway::Intents;
use crate::error::BotError;

verus! {

/// Every intent bit that `twilight_model` defines (`Intents::all()`).
pub open spec fn all_intents() -> u64 {
    0x31FFFFu64
}

/// The privileged intents: guild members, guild presences and message content.
pub open spec fn privileged_intents() -> u64 {
    (1u64 << 1u64) | (1u64 << 8u64) | (1u64 << 15u64)
}

/// The intents a bot gets when none are given: every intent but the privileged ones.
pub open spec fn default_intents() -> u64 {
    all_intents() & !privileged_intents()
}

/// A bit set is a valid set of intents when it holds no bit outside `all_intents()`.
pub open spec fn is_valid_intents(bits: u64) -> bool {
    bits & !all_intents() == 0
}

/// The intents that `to_intents` resolves an optional bit set to.
pub open spec fn resolve_intents(bits: Option<u64>) -> Result<u64, BotError> {
    match bits {
        None => Ok(default_intents()),
        Some(b) => if is_valid_intents(b) { Ok(b) } else { Err(BotError::InvalidIntents) },
    }
}

/// `Intents::all().bits()`: the union of every intent flag that `twilight_model`
/// declares (bits 0 to 16, 20 and 21).
#[verifier::external_body]
fn intents_all() -> (r: u64)
    ensures
        r == all_intents(),
{
    Intents::all().bits()
}

/// `Intents::GUILD_MEMBERS.bits()`, declared as `1 << 1`.
#[verifier::external_body]
fn intents_guild_members() -> (r: u64)
    ensures
        r == 1u64 << 1u64,
{
    Intents::GUILD_MEMBERS.bits()
}

/// `Intents::GUILD_PRESENCES.bits()`, declared as `1 << 8`.
#[verifier::external_body]
fn intents_guild_presences() -> (r: u64)
    ensures
        r == 1u64 << 8u64,
{
    Intents::GUILD_PRESENCES.bits()
}

/// `Intents::MESSAGE_CONTENT.bits()`, declared as `1 << 15`.
#[verifier::external_body]
fn intents_message_content() -> (r: u64)
    ensures
        r == 1u64 << 15u64,
{
    Intents::MESSAGE_CONTENT.bits()
}

/// `Intents::from_bits(bits)` with the flags read back by `bits()`: bitflags'
/// `from_bits` returns the flags holding exactly `bits` when `bits` has no bit
/// outside `Intents::all()`, and `None` otherwise.
#[verifier::external_body]
fn intents_from_bits(bits: u64) -> (r: Option<u64>)
    ensures
        r == (if bits & !all_intents() == 0 { Some(bits) } else { None::<u64> }),
{
    match Intents::from_bits(bits) {
        Some(intents) => Some(intents.bits()),
        None => None,
    }
}

/// Resolves the intents a bot is built with: the given bit set when every bit
/// in it is an intent, every non-privileged intent when none is given, and
/// `BotError::InvalidIntents` otherwise.
pub fn to_intents(intents: Option<u64>) -> (r: Result<u64, BotError>)
    ensures
        r == resolve_intents(intents),
{
    match intents {
        Some(bits) => match intents_from_bits(bits) {
            Some(valid) => Ok(valid),
            None => Err(BotError::InvalidIntents),
        },
        None => {
            let all = intents_all();
            let privileged = intents_guild_members() | intents_guild_presences()
                | intents_message_content();
            Ok(all & !privileged)
        },
    }
}

/// The default intents are valid intents and hold none of the privileged ones.
pub proof fn lemma_default_intents_unprivileged()
    ensures
        is_valid_intents(default_intents()),
        default_intents() & privileged_intents() == 0,
        default_intents() == 0x317EFDu64,
{
    assert(default_intents() == 0x317EFDu64) by (bit_vector);
    assert(0x317EFDu64 & !0x31FFFFu64 == 0) by (bit_vector);
    assert(0x317EFDu64 & ((1u64 << 1u64) | (1u64 << 8u64) | (1u64 << 15u64)) == 0) by (bit_vector);
}

/// Every valid set of intents is accepted unchanged, and no set holding a bit
/// outside the known intents is accepted.
pub proof fn lemma_to_intents_accepts_exactly_valid(bits: u64)
    ensures
        resolve_intents(Some(bits)) is Ok <==> is_valid_intents(bits),
        resolve_intents(Some(bits)) is Ok ==> resolve_intents(Some(bits)) == Ok::<u64, BotError>(bits),
{
}

} // verus!
