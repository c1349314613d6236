//! One gateway shard: its identity and the state it announces.
use vstd::prelude::*;
use crate::error::BotError;
use crate::presence::{
    parse_status, status_named, ActivityUpdate, PresencePayload, ShardState, Status, VoicePayload,
};

verus! {

/// The shard that serves a guild: the guild id's timestamp part (its bits
/// from the 22nd up) modulo the number of shards.
pub open spec fn shard_for_guild(guild_id: u64, shard_total: u64) -> u64 {
    ((guild_id >> 22u64) % shard_total) as u64
}

/// Computes the shard that serves a guild among `shard_total` shards.
pub fn shard_id_for_guild(guild_id: u64, shard_total: u64) -> (r: u64)
    requires
        shard_total > 0,
    ensures
        r == shard_for_guild(guild_id, shard_total),
        r == (guild_id as int / 4194304) % (shard_total as int),
        r < shard_total,
{
    proof {
        lemma_shard_for_guild_is_timestamp_mod_total(guild_id, shard_total);
    }
    (guild_id >> 22u64) % shard_total
}

/// The shard serving a guild is the guild id's whole timestamp part (the id
/// divided by 2^22) modulo the number of shards.
pub proof fn lemma_shard_for_guild_is_timestamp_mod_total(guild_id: u64, shard_total: u64)
    requires
        shard_total > 0,
    ensures
        shard_for_guild(guild_id, shard_total) == (guild_id as int / 4194304) % (shard_total as int),
        shard_for_guild(guild_id, shard_total) < shard_total,
{
    assert(guild_id >> 22u64 == guild_id / 4194304u64) by (bit_vector);
}

/// What a shard sends to ask for a guild's members.
#[derive(Debug)]
pub struct MembersRequest {
    pub guild_id: u64,
    pub presences: Option<bool>,
    pub query: Option<String>,
    pub limit: Option<u64>,
    pub user_ids: Option<Vec<u64>>,
    pub nonce: Option<String>,
}

/// A gateway shard: its id, the number of shards and the intents it was
/// started with, and the presence and voice state it announces.
#[derive(Debug)]
pub struct Shard {
    pub intents: u64,
    pub shard_count: u64,
    pub shard_id: u64,
    pub state: ShardState,
}

impl Shard {
    pub fn new(state: ShardState, shard_count: u64, shard_id: u64, intents: u64) -> (s: Self)
        ensures
            s.state == state,
            s.shard_count == shard_count,
            s.shard_id == shard_id,
            s.intents == intents,
    {
        Shard { intents, shard_count, shard_id, state }
    }

    pub fn get_id(&self) -> (r: u64)
        ensures
            r == self.shard_id,
    {
        self.shard_id
    }

    /// The intents the shard was started with, as a bit set.
    pub fn get_intents(&self) -> (r: u64)
        ensures
            r == self.intents,
    {
        self.intents
    }

    /// A shard of a running bot is alive.
    pub fn is_alive(&self) -> (r: bool)
        ensures
            r,
    {
        true
    }

    pub fn get_shard_count(&self) -> (r: u64)
        ensures
            r == self.shard_count,
    {
        self.shard_count
    }

    /// Updates the presence: a given status name must be "online", "idle",
    /// "dnd" or "offline", else nothing changes and `InvalidStatus` comes
    /// back. Otherwise the given parts replace the kept ones and the payload
    /// announcing the new presence comes back.
    pub fn update_presence(
        &mut self,
        status: Option<&str>,
        idle_since: Option<u64>,
        activity: Option<ActivityUpdate>,
        afk: Option<bool>,
    ) -> (r: Result<PresencePayload, BotError>)
        ensures
            final(self).shard_id == old(self).shard_id,
            final(self).shard_count == old(self).shard_count,
            final(self).intents == old(self).intents,
            match status {
                Some(name) => status_named(name@) is None,
                None => false,
            } ==> r == Err::<PresencePayload, BotError>(BotError::InvalidStatus) && final(self).state
                == old(self).state,
            match status {
                Some(name) => status_named(name@) is Some,
                None => true,
            } ==> {
                let parsed = match status {
                    Some(name) => status_named(name@),
                    None => None::<Status>,
                };
                &&& r is Ok
                &&& final(self).state == old(self).state.with_presence(parsed, idle_since, activity, afk)
                &&& final(self).state.presence_payload_matches(r->Ok_0)
            },
    {
        let parsed = match status {
            Some(name) => match parse_status(name) {
                Some(s) => Some(s),
                None => {
                    return Err(BotError::InvalidStatus);
                },
            },
            None => None,
        };
        Ok(self.state.apply_presence(parsed, idle_since, activity, afk))
    }

    /// Updates the mute and deafen flags that are given and returns the
    /// payload that announces them in the guild's channel (no channel: leave
    /// voice).
    pub fn update_voice_state(
        &mut self,
        guild_id: u64,
        channel_id: Option<u64>,
        self_mute: Option<bool>,
        self_deaf: Option<bool>,
    ) -> (p: VoicePayload)
        ensures
            final(self).shard_id == old(self).shard_id,
            final(self).shard_count == old(self).shard_count,
            final(self).intents == old(self).intents,
            final(self).state == old(self).state.with_voice(self_mute, self_deaf),
            p == final(self).state.voice_payload(guild_id, channel_id),
    {
        self.state.apply_voice(guild_id, channel_id, self_mute, self_deaf)
    }

    /// The request for a guild's members: the query and limit are always
    /// sent, the user ids, presences flag and nonce when given.
    pub fn request_guild_members(
        &self,
        guild_id: u64,
        include_presences: Option<bool>,
        query: String,
        limit: u64,
        users: Option<Vec<u64>>,
        nonce: Option<String>,
    ) -> (r: MembersRequest)
        ensures
            r.guild_id == guild_id,
            r.presences == include_presences,
            r.query == Some(query),
            r.limit == Some(limit),
            r.user_ids == users,
            r.nonce == nonce,
    {
        MembersRequest {
            guild_id,
            presences: include_presences,
            query: Some(query),
            limit: Some(limit),
            user_ids: users,
            nonce,
        }
    }
}

} // verus!
