//! The bot: its configuration, its shards, and the decisions of its
//! run/close lifecycle and of routing requests to shards.
use vstd::prelude::*;
use crate::error::BotError;
use crate::intents::{resolve_intents, to_intents};
use crate::presence::{status_named, parse_status, ActivityUpdate, PresencePayload, ShardState, Status, VoicePayload};
use crate::shard::{shard_for_guild, shard_id_for_guild, MembersRequest, Shard};

verus! {

/// The shards a bot runs: ids `from` to `to` (both included) out of `total`.
#[derive(Clone, Copy, Debug, PartialEq, Eq, Structural)]
pub struct ShardScheme {
    pub from: u64,
    pub to: u64,
    pub total: u64,
}

/// `ShardScheme::Range { from, to, total }.iter()` (twilight_gateway),
/// collected: a range scheme walks the ids `from..=to` in order, one step at
/// a time, so the ids are `from`, `from + 1`, ..., `to`, and none when
/// `from > to`.
#[verifier::external_body]
fn scheme_shard_ids(cfg: ShardScheme) -> (r: Vec<u64>)
    ensures
        r@.len() == scheme_len(cfg),
        forall|i: int| 0 <= i < r@.len() ==> #[trigger] r@[i] == cfg.from + i,
{
    twilight_gateway::cluster::ShardScheme::Range { from: cfg.from, to: cfg.to, total: cfg.total }
        .iter()
        .collect()
}

/// What the bot holds, as mathematical values.
pub struct BotView {
    pub token: Seq<char>,
    pub gateway_url: Seq<char>,
    pub intents: u64,
    pub shard_config: Option<ShardScheme>,
    pub running: bool,
    pub mapped: bool,
    pub shards: Seq<Shard>,
}

/// No two shards share an id.
pub open spec fn distinct_shard_ids(shards: Seq<Shard>) -> bool {
    forall|i: int, j: int|
        0 <= i < shards.len() && 0 <= j < shards.len() && i != j ==> #[trigger] shards[i].shard_id
            != #[trigger] shards[j].shard_id
}

/// Some shard has the given id.
pub open spec fn has_shard(shards: Seq<Shard>, id: u64) -> bool {
    exists|i: int| 0 <= i < shards.len() && #[trigger] shards[i].shard_id == id
}

/// The number of shards a scheme runs.
pub open spec fn scheme_len(cfg: ShardScheme) -> int {
    if cfg.from <= cfg.to {
        cfg.to - cfg.from + 1
    } else {
        0
    }
}

/// `shards` are the shards of a scheme, in id order, each counting the
/// scheme's total and started with the given intents.
pub open spec fn scheme_shards(shards: Seq<Shard>, cfg: ShardScheme, intents: u64) -> bool {
    &&& shards.len() == scheme_len(cfg)
    &&& forall|i: int|
        0 <= i < shards.len() ==> {
            &&& #[trigger] shards[i].shard_id == cfg.from + i
            &&& shards[i].shard_count == cfg.total
            &&& shards[i].intents == intents
        }
}

/// `shards` are the fresh shards of a scheme: its shards, each in the
/// initial state.
pub open spec fn planned_shards(shards: Seq<Shard>, cfg: ShardScheme, intents: u64) -> bool {
    &&& scheme_shards(shards, cfg, intents)
    &&& forall|i: int| 0 <= i < shards.len() ==> #[trigger] shards[i].state == ShardState::initial()
}

impl ShardScheme {
    /// The scheme for all the shards that the gateway recommends: ids 0 to
    /// `shards - 1` out of `shards`.
    pub fn for_gateway(shards: u64) -> (r: ShardScheme)
        requires
            shards > 0,
        ensures
            r == (ShardScheme { from: 0, to: (shards - 1) as u64, total: shards }),
    {
        ShardScheme { from: 0, to: shards - 1, total: shards }
    }
}

impl BotView {
    /// The bot's invariant: shard ids are distinct; a running bot maps its
    /// shards; shards, once held, are the shards of the configured scheme.
    pub open spec fn wf(self) -> bool {
        &&& distinct_shard_ids(self.shards)
        &&& self.running ==> self.mapped
        &&& (self.mapped || self.shards.len() > 0) ==> {
            &&& self.shard_config is Some
            &&& scheme_shards(self.shards, self.shard_config->0, self.intents)
        }
    }

    /// The number of shards among which guilds are spread.
    pub open spec fn shard_total(self) -> u64 {
        self.shard_config->0.total
    }

    /// The id of the shard that serves a guild.
    pub open spec fn routed_shard(self, guild_id: u64) -> u64 {
        shard_for_guild(guild_id, self.shard_total())
    }

    /// Routing a guild to a shard can be asked of the bot: when it runs, it
    /// spreads guilds among at least one shard.
    pub open spec fn routable(self) -> bool {
        self.running ==> self.shard_total() > 0
    }

    /// The bot after `close`: disconnected, everything else kept.
    pub open spec fn closed(self) -> BotView {
        BotView { running: false, ..self }
    }

    /// The shard count that the connected gateway reports.
    pub open spec fn reported_shard_count(self) -> u64 {
        if self.running && scheme_len(self.shard_config->0) > 0 {
            self.shard_total()
        } else {
            0
        }
    }
}

/// A Discord bot: its token, gateway URL and intents, its shard
/// configuration, whether it is connected, whether its shard map holds its
/// shards, and the shards of its last run with their state.
#[derive(Debug)]
pub struct Bot {
    token: String,
    gateway_url: String,
    intents: u64,
    shard_config: Option<ShardScheme>,
    running: bool,
    mapped: bool,
    shards: Vec<Shard>,
}

impl View for Bot {
    type V = BotView;

    closed spec fn view(&self) -> BotView {
        BotView {
            token: self.token@,
            gateway_url: self.gateway_url@,
            intents: self.intents,
            shard_config: self.shard_config,
            running: self.running,
            mapped: self.mapped,
            shards: self.shards@,
        }
    }
}

/// The scheme that an optional `(from, to, total)` triple gives.
pub open spec fn scheme_of(shards: Option<(u64, u64, u64)>) -> Option<ShardScheme> {
    match shards {
        Some((from, to, total)) => Some(ShardScheme { from, to, total }),
        None => None,
    }
}

impl Bot {
    /// A bot that is not yet connected. The intents must be valid (none
    /// given: every non-privileged intent); the shards, given as `(from, to,
    /// total)`, are otherwise asked of the gateway when the bot runs.
    pub fn new(
        token: String,
        intents: Option<u64>,
        shards: Option<(u64, u64, u64)>,
        gateway_url: String,
    ) -> (r: Result<Bot, BotError>)
        ensures
            match resolve_intents(intents) {
                Err(e) => r == Err::<Bot, BotError>(e),
                Ok(bits) => r is Ok && r->Ok_0@ == (BotView {
                    token: token@,
                    gateway_url: gateway_url@,
                    intents: bits,
                    shard_config: scheme_of(shards),
                    running: false,
                    mapped: false,
                    shards: Seq::empty(),
                }),
            },
            r is Ok ==> r->Ok_0@.wf(),
    {
        let bits = match to_intents(intents) {
            Ok(bits) => bits,
            Err(e) => {
                return Err(e);
            },
        };
        let shard_config = match shards {
            Some((from, to, total)) => Some(ShardScheme { from, to, total }),
            None => None,
        };
        let bot = Bot {
            token,
            gateway_url,
            intents: bits,
            shard_config,
            running: false,
            mapped: false,
            shards: Vec::new(),
        };
        proof {
            assert(bot@.shards =~= Seq::<Shard>::empty());
        }
        Ok(bot)
    }

    /// Whether the bot is connected to the gateway.
    pub fn is_alive(&self) -> (r: bool)
        ensures
            r == self@.running,
    {
        self.running
    }

    /// The intents the bot runs with, as a bit set.
    pub fn get_intents(&self) -> (r: u64)
        ensures
            r == self@.intents,
    {
        self.intents
    }

    pub fn token(&self) -> (r: &String)
        ensures
            r@ == self@.token,
    {
        &self.token
    }

    pub fn gateway_url(&self) -> (r: &String)
        ensures
            r@ == self@.gateway_url,
    {
        &self.gateway_url
    }

    /// The shard configuration, once known.
    pub fn shard_config(&self) -> (r: Option<ShardScheme>)
        ensures
            r == self@.shard_config,
    {
        self.shard_config
    }

    /// The bot's shards.
    pub fn shards(&self) -> (r: &Vec<Shard>)
        ensures
            r@ == self@.shards,
    {
        &self.shards
    }

    /// The number of shards the gateway connection reports: the configured
    /// total while connected to at least one shard, else 0.
    pub fn get_shard_count(&self) -> (r: u64)
        requires
            self@.wf(),
        ensures
            r == self@.reported_shard_count(),
    {
        if self.running {
            match self.shard_config {
                Some(cfg) => if cfg.from <= cfg.to {
                    cfg.total
                } else {
                    0
                },
                None => 0,
            }
        } else {
            0
        }
    }

    /// Starts a run: refused with `AlreadyRunning` while connected, nothing
    /// changed. Otherwise the shard configuration is settled (the configured
    /// one, else the one fetched from the gateway) and the fresh shards of
    /// that configuration come back, for `install_shards`.
    pub fn prepare_run(&mut self, fetched: Option<ShardScheme>) -> (r: Result<Vec<Shard>, BotError>)
        requires
            old(self)@.wf(),
            old(self)@.shard_config is None ==> fetched is Some,
        ensures
            final(self)@.wf(),
            old(self)@.running ==> r == Err::<Vec<Shard>, BotError>(BotError::AlreadyRunning)
                && final(self)@ == old(self)@,
            !old(self)@.running ==> {
                let cfg = match old(self)@.shard_config {
                    Some(c) => c,
                    None => fetched->0,
                };
                &&& r is Ok
                &&& final(self)@ == BotView { shard_config: Some(cfg), ..old(self)@ }
                &&& planned_shards(r->Ok_0@, cfg, old(self)@.intents)
                &&& distinct_shard_ids(r->Ok_0@)
            },
    {
        if self.running {
            return Err(BotError::AlreadyRunning);
        }
        let cfg = match self.shard_config {
            Some(c) => c,
            None => fetched.unwrap(),
        };
        self.shard_config = Some(cfg);
        let intents = self.intents;
        let ids = scheme_shard_ids(cfg);
        let mut shards: Vec<Shard> = Vec::new();
        let mut k: usize = 0;
        while k < ids.len()
            invariant
                ids@.len() == scheme_len(cfg),
                forall|i: int| 0 <= i < ids@.len() ==> #[trigger] ids@[i] == cfg.from + i,
                k <= ids@.len(),
                shards@.len() == k,
                forall|i: int|
                    0 <= i < shards@.len() ==> {
                        &&& #[trigger] shards@[i].shard_id == cfg.from + i
                        &&& shards@[i].shard_count == cfg.total
                        &&& shards@[i].intents == intents
                        &&& shards@[i].state == ShardState::initial()
                    },
            decreases ids@.len() - k,
        {
            let ghost before = shards@;
            shards.push(Shard::new(ShardState::new(), cfg.total, ids[k], intents));
            assert(forall|i: int| 0 <= i < before.len() ==> #[trigger] shards@[i] == before[i]);
            k = k + 1;
        }
        proof {
            assert forall|i: int| 0 <= i < shards@.len() implies #[trigger] shards@[i].state
                == ShardState::initial() by {
                assert(shards@[i].shard_id == cfg.from + i);
            }
            lemma_planned_shards_distinct(shards@, cfg, intents);
        }
        Ok(shards)
    }

    /// Installs the fresh shards of the configured scheme in the shard map,
    /// replacing any held before.
    pub fn install_shards(&mut self, shards: Vec<Shard>)
        requires
            old(self)@.wf(),
            old(self)@.shard_config is Some,
            planned_shards(shards@, old(self)@.shard_config->0, old(self)@.intents),
        ensures
            final(self)@.wf(),
            final(self)@ == (BotView { shards: shards@, mapped: true, ..old(self)@ }),
    {
        proof {
            lemma_planned_shards_distinct(shards@, self.shard_config->0, self.intents);
        }
        self.shards = shards;
        self.mapped = true;
    }

    /// Records that the gateway connection is up; the shards must be mapped.
    pub fn mark_connected(&mut self)
        requires
            old(self)@.wf(),
            old(self)@.mapped,
        ensures
            final(self)@.wf(),
            final(self)@ == (BotView { running: true, ..old(self)@ }),
    {
        self.running = true;
    }

    /// Records that the gateway's event stream has ended: the bot is no
    /// longer connected and its shard map is emptied; each shard keeps its
    /// state, which a later update of that shard still changes.
    pub fn mark_disconnected(&mut self)
        requires
            old(self)@.wf(),
        ensures
            final(self)@.wf(),
            final(self)@ == (BotView { running: false, mapped: false, ..old(self)@ }),
    {
        self.running = false;
        self.mapped = false;
    }

    /// Closes the gateway connection: refused with `NotRunning` when not
    /// connected, nothing changed.
    pub fn close(&mut self) -> (r: Result<(), BotError>)
        requires
            old(self)@.wf(),
        ensures
            final(self)@.wf(),
            old(self)@.running ==> r is Ok && final(self)@ == old(self)@.closed(),
            !old(self)@.running ==> r == Err::<(), BotError>(BotError::NotRunning) && final(self)@
                == old(self)@,
    {
        if !self.running {
            return Err(BotError::NotRunning);
        }
        self.running = false;
        Ok(())
    }

    /// Commands can be sent only while the bot is connected.
    pub fn ensure_running(&self) -> (r: Result<(), BotError>)
        ensures
            r is Ok <==> self@.running,
            r is Err ==> r->Err_0 == BotError::NotRunning,
    {
        if self.running {
            Ok(())
        } else {
            Err(BotError::NotRunning)
        }
    }

    /// The position of the shard with the given id, if any.
    fn find_shard(&self, id: u64) -> (r: Option<usize>)
        ensures
            r is None <==> !has_shard(self@.shards, id),
            r matches Some(i) ==> i < self@.shards.len() && self@.shards[i as int].shard_id == id,
    {
        let mut i: usize = 0;
        while i < self.shards.len()
            invariant
                i <= self.shards@.len(),
                forall|j: int| 0 <= j < i ==> #[trigger] self.shards@[j].shard_id != id,
            decreases self.shards@.len() - i,
        {
            if self.shards[i].shard_id == id {
                return Some(i);
            }
            i = i + 1;
        }
        None
    }

    /// The position of the shard serving a guild: `NotRunning` when not
    /// connected, `ShardNotFound` when the bot holds no shard with the
    /// routed id.
    pub fn get_shard(&self, guild_id: u64) -> (r: Result<usize, BotError>)
        requires
            self@.wf(),
            self@.routable(),
        ensures
            r == Err::<usize, BotError>(BotError::NotRunning) <==> !self@.running,
            self@.running ==> (r == Err::<usize, BotError>(BotError::ShardNotFound) <==> !has_shard(
                self@.shards,
                self@.routed_shard(guild_id),
            )),
            r matches Ok(i) ==> self@.running && i < self@.shards.len()
                && self@.shards[i as int].shard_id == self@.routed_shard(guild_id),
            r is Ok || r == Err::<usize, BotError>(BotError::NotRunning) || r == Err::<
                usize,
                BotError,
            >(BotError::ShardNotFound),
    {
        if !self.running {
            return Err(BotError::NotRunning);
        }
        let total = match self.shard_config {
            Some(cfg) => cfg.total,
            None => 0,
        };
        let id = shard_id_for_guild(guild_id, total);
        match self.find_shard(id) {
            Some(i) => Ok(i),
            None => Err(BotError::ShardNotFound),
        }
    }

    /// Updates the voice flags of the shard with the given id and returns the
    /// payload announcing them in a guild's channel; `ShardNotFound`, nothing
    /// changed, when the bot holds no such shard.
    pub fn update_shard_voice_state(
        &mut self,
        shard_id: u64,
        guild_id: u64,
        channel_id: Option<u64>,
        self_mute: Option<bool>,
        self_deaf: Option<bool>,
    ) -> (r: Result<VoicePayload, BotError>)
        requires
            old(self)@.wf(),
        ensures
            final(self)@.wf(),
            r is Err <==> !has_shard(old(self)@.shards, shard_id),
            r is Err ==> r->Err_0 == BotError::ShardNotFound && final(self)@ == old(self)@,
            r matches Ok(p) ==> {
                let i = choose|i: int|
                    0 <= i < old(self)@.shards.len() && #[trigger] old(self)@.shards[i].shard_id
                        == shard_id;
                &&& 0 <= i < old(self)@.shards.len()
                &&& old(self)@.shards[i].shard_id == shard_id
                &&& final(self)@ == (BotView {
                    shards: old(self)@.shards.update(
                        i,
                        Shard {
                            state: old(self)@.shards[i].state.with_voice(self_mute, self_deaf),
                            ..old(self)@.shards[i]
                        },
                    ),
                    ..old(self)@
                })
                &&& p == final(self)@.shards[i].state.voice_payload(guild_id, channel_id)
            },
    {
        let i = match self.find_shard(shard_id) {
            Some(i) => i,
            None => {
                return Err(BotError::ShardNotFound);
            },
        };
        let ghost old_shards = self.shards@;
        let mut shard = self.shards.remove(i);
        let p = shard.update_voice_state(guild_id, channel_id, self_mute, self_deaf);
        self.shards.insert(i, shard);
        proof {
            let j = choose|j: int|
                0 <= j < old_shards.len() && #[trigger] old_shards[j].shard_id == shard_id;
            assert(old_shards[i as int].shard_id == shard_id);
            assert(j == i);
            assert(self.shards@ =~= old_shards.update(i as int, self.shards@[i as int]));
            assert forall|a: int, b: int|
                0 <= a < self.shards@.len() && 0 <= b < self.shards@.len() && a != b implies
                #[trigger] self.shards@[a].shard_id != #[trigger] self.shards@[b].shard_id by {
                assert(self.shards@[a].shard_id == old_shards[a].shard_id);
                assert(self.shards@[b].shard_id == old_shards[b].shard_id);
            }
        }
        Ok(p)
    }

    /// Updates the presence of the shard with the given id, as
    /// `Shard::update_presence` does; `ShardNotFound`, nothing changed, when
    /// the bot holds no such shard.
    pub fn update_shard_presence(
        &mut self,
        shard_id: u64,
        status: Option<&str>,
        idle_since: Option<u64>,
        activity: Option<ActivityUpdate>,
        afk: Option<bool>,
    ) -> (r: Result<PresencePayload, BotError>)
        requires
            old(self)@.wf(),
        ensures
            final(self)@.wf(),
            !has_shard(old(self)@.shards, shard_id) ==> r is Err && r->Err_0
                == BotError::ShardNotFound,
            r is Err ==> final(self)@ == old(self)@,
            has_shard(old(self)@.shards, shard_id) ==> {
                let i = choose|i: int|
                    0 <= i < old(self)@.shards.len() && #[trigger] old(self)@.shards[i].shard_id
                        == shard_id;
                let bad_status = match status {
                    Some(name) => status_named(name@) is None,
                    None => false,
                };
                let parsed = match status {
                    Some(name) => status_named(name@),
                    None => None::<Status>,
                };
                &&& bad_status ==> r is Err && r->Err_0 == BotError::InvalidStatus
                &&& !bad_status ==> {
                    &&& r is Ok
                    &&& 0 <= i < old(self)@.shards.len()
                    &&& old(self)@.shards[i].shard_id == shard_id
                    &&& final(self)@ == (BotView {
                        shards: old(self)@.shards.update(
                            i,
                            Shard {
                                state: old(self)@.shards[i].state.with_presence(
                                    parsed,
                                    idle_since,
                                    activity,
                                    afk,
                                ),
                                ..old(self)@.shards[i]
                            },
                        ),
                        ..old(self)@
                    })
                    &&& final(self)@.shards[i].state.presence_payload_matches(r->Ok_0)
                }
            },
    {
        let i = match self.find_shard(shard_id) {
            Some(i) => i,
            None => {
                return Err(BotError::ShardNotFound);
            },
        };
        let ghost old_shards = self.shards@;
        let mut shard = self.shards.remove(i);
        let r = shard.update_presence(status, idle_since, activity, afk);
        self.shards.insert(i, shard);
        proof {
            let j = choose|j: int|
                0 <= j < old_shards.len() && #[trigger] old_shards[j].shard_id == shard_id;
            assert(old_shards[i as int].shard_id == shard_id);
            assert(j == i);
            assert(self.shards@ =~= old_shards.update(i as int, self.shards@[i as int]));
            if r is Err {
                assert(self.shards@ =~= old_shards);
            }
            assert forall|a: int, b: int|
                0 <= a < self.shards@.len() && 0 <= b < self.shards@.len() && a != b implies
                #[trigger] self.shards@[a].shard_id != #[trigger] self.shards@[b].shard_id by {
                assert(self.shards@[a].shard_id == old_shards[a].shard_id);
                assert(self.shards@[b].shard_id == old_shards[b].shard_id);
            }
        }
        r
    }

    /// Updates the voice flags of the shard serving a guild and returns that
    /// shard's id with the payload announcing them; refused as `get_shard`
    /// refuses, nothing changed.
    pub fn update_voice_state(
        &mut self,
        guild_id: u64,
        channel_id: Option<u64>,
        self_mute: Option<bool>,
        self_deaf: Option<bool>,
    ) -> (r: Result<(u64, VoicePayload), BotError>)
        requires
            old(self)@.wf(),
            old(self)@.routable(),
        ensures
            final(self)@.wf(),
            r == Err::<(u64, VoicePayload), BotError>(BotError::NotRunning) <==> !old(self)@.running,
            r is Err ==> r->Err_0 == BotError::NotRunning || r->Err_0 == BotError::ShardNotFound,
            old(self)@.running ==> (r == Err::<(u64, VoicePayload), BotError>(BotError::ShardNotFound)
                <==> !has_shard(old(self)@.shards, old(self)@.routed_shard(guild_id))),
            r is Err ==> final(self)@ == old(self)@,
            r matches Ok((id, p)) ==> {
                let i = choose|i: int|
                    0 <= i < old(self)@.shards.len() && #[trigger] old(self)@.shards[i].shard_id == id;
                &&& id == old(self)@.routed_shard(guild_id)
                &&& 0 <= i < old(self)@.shards.len()
                &&& old(self)@.shards[i].shard_id == id
                &&& final(self)@ == (BotView {
                    shards: old(self)@.shards.update(
                        i,
                        Shard {
                            state: old(self)@.shards[i].state.with_voice(self_mute, self_deaf),
                            ..old(self)@.shards[i]
                        },
                    ),
                    ..old(self)@
                })
                &&& p == final(self)@.shards[i].state.voice_payload(guild_id, channel_id)
            },
    {
        let i = match self.get_shard(guild_id) {
            Ok(i) => i,
            Err(e) => {
                return Err(e);
            },
        };
        let id = self.shards[i].shard_id;
        match self.update_shard_voice_state(id, guild_id, channel_id, self_mute, self_deaf) {
            Ok(p) => Ok((id, p)),
            Err(e) => Err(e),
        }
    }

    /// The members request for a guild, with the id of the shard that serves
    /// the guild; refused as `get_shard` refuses.
    pub fn request_guild_members(
        &self,
        guild_id: u64,
        include_presences: Option<bool>,
        query: String,
        limit: u64,
        users: Option<Vec<u64>>,
        nonce: Option<String>,
    ) -> (r: Result<(u64, MembersRequest), BotError>)
        requires
            self@.wf(),
            self@.routable(),
        ensures
            (r is Err && r->Err_0 == BotError::NotRunning) <==> !self@.running,
            self@.running ==> (r is Err && r->Err_0 == BotError::ShardNotFound <==> !has_shard(
                self@.shards,
                self@.routed_shard(guild_id),
            )),
            r is Err ==> r->Err_0 == BotError::NotRunning || r->Err_0 == BotError::ShardNotFound,
            r matches Ok((id, req)) ==> {
                &&& id == self@.routed_shard(guild_id)
                &&& has_shard(self@.shards, id)
                &&& req.guild_id == guild_id
                &&& req.presences == include_presences
                &&& req.query == Some(query)
                &&& req.limit == Some(limit)
                &&& req.user_ids == users
                &&& req.nonce == nonce
            },
    {
        let i = match self.get_shard(guild_id) {
            Ok(i) => i,
            Err(e) => {
                return Err(e);
            },
        };
        let shard = &self.shards[i];
        let req = shard.request_guild_members(guild_id, include_presences, query, limit, users, nonce);
        Ok((shard.shard_id, req))
    }

    /// Updates the presence of every shard in the shard map and returns each
    /// shard's id with the payload announcing its new presence, in shard
    /// order. With an empty map (no run, or the event stream has ended)
    /// nothing changes and no payload comes back. A status name other than
    /// "online", "idle", "dnd" and "offline" is refused by every shard alike:
    /// then too nothing changes and no payload comes back.
    pub fn update_presence(
        &mut self,
        status: Option<&str>,
        idle_since: Option<u64>,
        activity: Option<ActivityUpdate>,
        afk: Option<bool>,
    ) -> (r: Vec<(u64, PresencePayload)>)
        requires
            old(self)@.wf(),
        ensures
            final(self)@.wf(),
            !old(self)@.mapped ==> r@.len() == 0 && final(self)@ == old(self)@,
            match status {
                Some(name) => status_named(name@) is None,
                None => false,
            } ==> r@.len() == 0 && final(self)@ == old(self)@,
            old(self)@.mapped && match status {
                Some(name) => status_named(name@) is Some,
                None => true,
            } ==> {
                let parsed = match status {
                    Some(name) => status_named(name@),
                    None => None::<Status>,
                };
                &&& r@.len() == old(self)@.shards.len()
                &&& final(self)@ == BotView {
                    shards: final(self)@.shards,
                    ..old(self)@
                }
                &&& final(self)@.shards.len() == old(self)@.shards.len()
                &&& forall|i: int|
                    0 <= i < old(self)@.shards.len() ==> {
                        &&& #[trigger] final(self)@.shards[i] == Shard {
                            state: old(self)@.shards[i].state.with_presence(
                                parsed,
                                idle_since,
                                activity,
                                afk,
                            ),
                            ..old(self)@.shards[i]
                        }
                        &&& r@[i].0 == old(self)@.shards[i].shard_id
                        &&& final(self)@.shards[i].state.presence_payload_matches(r@[i].1)
                    }
            },
    {
        let mut out: Vec<(u64, PresencePayload)> = Vec::new();
        if !self.mapped {
            return out;
        }
        let parsed = match status {
            Some(name) => match parse_status(name) {
                Some(s) => Some(s),
                None => {
                    return out;
                },
            },
            None => None,
        };
        let ghost old_shards = self.shards@;
        let n = self.shards.len();
        let mut i: usize = 0;
        while i < n
            invariant
                n == old_shards.len(),
                self.shards@.len() == n,
                i <= n,
                out@.len() == i,
                self.intents == old(self).intents,
                self.running == old(self).running,
                self.mapped == old(self).mapped,
                self.mapped,
                self.shard_config == old(self).shard_config,
                self.token == old(self).token,
                self.gateway_url == old(self).gateway_url,
                old_shards == old(self)@.shards,
                forall|j: int|
                    0 <= j < i ==> {
                        &&& #[trigger] self.shards@[j] == Shard {
                            state: old_shards[j].state.with_presence(parsed, idle_since, activity, afk),
                            ..old_shards[j]
                        }
                        &&& out@[j].0 == old_shards[j].shard_id
                        &&& self.shards@[j].state.presence_payload_matches(out@[j].1)
                    },
                forall|j: int| i <= j < n ==> #[trigger] self.shards@[j] == old_shards[j],
            decreases n - i,
        {
            let ghost before = self.shards@;
            let mut shard = self.shards.remove(i);
            let update = match &activity {
                Some(a) => Some(a.clone()),
                None => None,
            };
            let p = shard.state.apply_presence(parsed, idle_since, update, afk);
            let id = shard.shard_id;
            self.shards.insert(i, shard);
            proof {
                assert(self.shards@ =~= before.update(i as int, self.shards@[i as int]));
            }
            out.push((id, p));
            i = i + 1;
        }
        proof {
            assert forall|a: int, b: int|
                0 <= a < self.shards@.len() && 0 <= b < self.shards@.len() && a != b implies
                #[trigger] self.shards@[a].shard_id != #[trigger] self.shards@[b].shard_id by {
                assert(self.shards@[a].shard_id == old_shards[a].shard_id);
                assert(self.shards@[b].shard_id == old_shards[b].shard_id);
            }
            lemma_same_identities_keep_scheme(old_shards, self.shards@, self.shard_config->0, self.intents);
        }
        out
    }
}

/// The shards planned for a scheme have distinct ids, so they can be installed.
pub proof fn lemma_planned_shards_distinct(shards: Seq<Shard>, cfg: ShardScheme, intents: u64)
    requires
        planned_shards(shards, cfg, intents),
    ensures
        distinct_shard_ids(shards),
{
    assert forall|i: int, j: int|
        0 <= i < shards.len() && 0 <= j < shards.len() && i != j implies #[trigger] shards[i].shard_id
        != #[trigger] shards[j].shard_id by {
        assert(shards[i].shard_id == cfg.from + i);
        assert(shards[j].shard_id == cfg.from + j);
    }
}

/// A guild routed into the range of a scheme is served by one of the
/// scheme's planned shards; with the gateway's scheme, every guild is.
pub proof fn lemma_planned_shards_serve_routed_guilds(
    shards: Seq<Shard>,
    cfg: ShardScheme,
    intents: u64,
    guild_id: u64,
)
    requires
        planned_shards(shards, cfg, intents),
        cfg.total > 0,
        cfg.from <= shard_for_guild(guild_id, cfg.total) <= cfg.to,
    ensures
        has_shard(shards, shard_for_guild(guild_id, cfg.total)),
{
    let id = shard_for_guild(guild_id, cfg.total);
    let i = id - cfg.from;
    assert(shards[i].shard_id == cfg.from + i);
}

/// With the gateway's scheme of `total` shards, every guild id is routed
/// within the scheme, so every guild is served.
pub proof fn lemma_gateway_scheme_serves_every_guild(
    shards: Seq<Shard>,
    total: u64,
    intents: u64,
    guild_id: u64,
)
    requires
        total > 0,
        planned_shards(shards, ShardScheme { from: 0, to: (total - 1) as u64, total }, intents),
    ensures
        has_shard(shards, shard_for_guild(guild_id, total)),
{
    let cfg = ShardScheme { from: 0, to: (total - 1) as u64, total };
    assert(shard_for_guild(guild_id, total) < total);
    lemma_planned_shards_serve_routed_guilds(shards, cfg, intents, guild_id);
}

/// Closing a connected bot leaves it valid and disconnected, with its shards
/// and configuration kept: a second close is refused, and a new run is
/// accepted.
pub proof fn lemma_close_disconnects(v: BotView)
    requires
        v.wf(),
        v.running,
    ensures
        v.closed().wf(),
        !v.closed().running,
        v.closed().shards == v.shards,
        v.closed().shard_config == v.shard_config,
        v.closed().reported_shard_count() == 0,
{
}

/// The shard count a bot reports is 0 unless it is connected; while
/// connected, the bot holds exactly the shards of its scheme, and it reports
/// the scheme's total, which is the count every held shard carries.
pub proof fn lemma_reported_shard_count(v: BotView)
    requires
        v.wf(),
    ensures
        !v.running ==> v.reported_shard_count() == 0,
        v.running && scheme_len(v.shard_config->0) > 0 ==> v.reported_shard_count() == v.shard_total(),
        v.running ==> v.shards.len() == scheme_len(v.shard_config->0),
        v.running ==> forall|i: int|
            0 <= i < v.shards.len() ==> #[trigger] v.shards[i].shard_count == v.reported_shard_count(),
{
    if v.running {
        assert forall|i: int| 0 <= i < v.shards.len() implies #[trigger] v.shards[i].shard_count
            == v.reported_shard_count() by {
            assert(v.shards[i].shard_id == v.shard_config->0.from + i);
        }
    }
}

/// Shards that keep their ids, counts and intents stay the shards of the
/// same scheme.
proof fn lemma_same_identities_keep_scheme(
    before: Seq<Shard>,
    after: Seq<Shard>,
    cfg: ShardScheme,
    intents: u64,
)
    requires
        scheme_shards(before, cfg, intents),
        after.len() == before.len(),
        forall|i: int|
            0 <= i < after.len() ==> #[trigger] after[i].shard_id == before[i].shard_id
                && after[i].shard_count == before[i].shard_count && after[i].intents
                == before[i].intents,
    ensures
        scheme_shards(after, cfg, intents),
{
    assert forall|i: int| 0 <= i < after.len() implies {
        &&& #[trigger] after[i].shard_id == cfg.from + i
        &&& after[i].shard_count == cfg.total
        &&& after[i].intents == intents
    } by {
        assert(after[i].shard_id == before[i].shard_id);
        assert(before[i].shard_id == cfg.from + i);
    }
}

} // verus!
