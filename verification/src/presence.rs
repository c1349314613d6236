//! A shard's presence and voice state, the updates applied to it and the
//! payloads sent to the gateway from it.
use vstd::prelude::*;
use twilight_model::gateway::presence::ActivityType;

verus! {

/// A presence status, as the gateway knows it.
#[derive(Clone, Copy, Debug, PartialEq, Eq, Structural)]
pub enum Status {
    DoNotDisturb,
    Idle,
    Invisible,
    Offline,
    Online,
}

/// The kind of an activity, as the gateway numbers it.
#[derive(Clone, Copy, Debug, PartialEq, Eq, Structural)]
pub enum ActivityKind {
    Playing,
    Streaming,
    Listening,
    Watching,
    Custom,
    Competing,
    Unknown(u8),
}

/// The activity kind that the gateway's number `kind` stands for.
pub open spec fn activity_kind_of(kind: u8) -> ActivityKind {
    if kind == 0 {
        ActivityKind::Playing
    } else if kind == 1 {
        ActivityKind::Streaming
    } else if kind == 2 {
        ActivityKind::Listening
    } else if kind == 3 {
        ActivityKind::Watching
    } else if kind == 4 {
        ActivityKind::Custom
    } else if kind == 5 {
        ActivityKind::Competing
    } else {
        ActivityKind::Unknown(kind)
    }
}

/// `ActivityType::from(kind)` (twilight_model): 0 to 5 are playing, streaming,
/// listening, watching, custom and competing, every other number is
/// `Unknown(kind)`. The variants are read back one for one.
#[verifier::external_body]
fn activity_type_from(kind: u8) -> (r: ActivityKind)
    ensures
        r == activity_kind_of(kind),
{
    match ActivityType::from(kind) {
        ActivityType::Playing => ActivityKind::Playing,
        ActivityType::Streaming => ActivityKind::Streaming,
        ActivityType::Listening => ActivityKind::Listening,
        ActivityType::Watching => ActivityKind::Watching,
        ActivityType::Custom => ActivityKind::Custom,
        ActivityType::Competing => ActivityKind::Competing,
        ActivityType::Unknown(n) => ActivityKind::Unknown(n),
        _ => ActivityKind::Unknown(kind),
    }
}

/// The status that a status name stands for: "online", "idle", "dnd" and
/// "offline"; any other name stands for none.
pub open spec fn status_named(name: Seq<char>) -> Option<Status> {
    if name == "online"@ {
        Some(Status::Online)
    } else if name == "idle"@ {
        Some(Status::Idle)
    } else if name == "dnd"@ {
        Some(Status::DoNotDisturb)
    } else if name == "offline"@ {
        Some(Status::Offline)
    } else {
        None
    }
}

/// Reads a status name: "online", "idle", "dnd" or "offline".
pub fn parse_status(name: &str) -> (r: Option<Status>)
    ensures
        r == status_named(name@),
{
    let name = name.to_owned();
    if name == "online".to_owned() {
        Some(Status::Online)
    } else if name == "idle".to_owned() {
        Some(Status::Idle)
    } else if name == "dnd".to_owned() {
        Some(Status::DoNotDisturb)
    } else if name == "offline".to_owned() {
        Some(Status::Offline)
    } else {
        None
    }
}

/// An activity shown in a presence.
#[derive(Debug)]
pub struct Activity {
    pub kind: ActivityKind,
    pub name: String,
    pub url: Option<String>,
}

fn copy_string(s: &String) -> (r: String)
    ensures
        r == *s,
{
    s.clone()
}

impl Clone for Activity {
    fn clone(&self) -> (r: Self)
        ensures
            r == *self,
    {
        let url = match &self.url {
            Some(u) => Some(copy_string(u)),
            None => None,
        };
        Activity { kind: self.kind, name: copy_string(&self.name), url }
    }
}

/// A requested change of activity: the gateway's number for its kind, its
/// name and an optional URL.
#[derive(Debug)]
pub struct ActivityUpdate {
    pub kind: u8,
    pub name: String,
    pub url: Option<String>,
}

impl Clone for ActivityUpdate {
    fn clone(&self) -> (r: Self)
        ensures
            r == *self,
    {
        let url = match &self.url {
            Some(u) => Some(copy_string(u)),
            None => None,
        };
        ActivityUpdate { kind: self.kind, name: copy_string(&self.name), url }
    }
}

/// What a shard sends to change its presence.
#[derive(Debug)]
pub struct PresencePayload {
    pub activities: Vec<Activity>,
    pub afk: bool,
    pub since: Option<u64>,
    pub status: Status,
}

/// What a shard sends to join, move within or leave a guild's voice channels.
#[derive(Clone, Copy, Debug, PartialEq, Eq, Structural)]
pub struct VoicePayload {
    pub guild_id: u64,
    pub channel_id: Option<u64>,
    pub self_deaf: bool,
    pub self_mute: bool,
}

/// The presence and voice state that a shard keeps between updates.
#[derive(Debug)]
pub struct ShardState {
    pub self_mute: bool,
    pub self_deaf: bool,
    pub activity: Option<Activity>,
    pub afk: bool,
    pub afk_since: Option<u64>,
    pub status: Status,
}

/// The activities a presence payload lists for a state's activity: it alone, or none.
pub open spec fn activities_of(activity: Option<Activity>) -> Seq<Activity> {
    match activity {
        Some(a) => seq![a],
        None => Seq::empty(),
    }
}

/// The activity that an activity update sets.
pub open spec fn activity_from_update(update: ActivityUpdate) -> Activity {
    Activity { kind: activity_kind_of(update.kind), name: update.name, url: update.url }
}

impl ShardState {
    /// A fresh state: online, not away, no activity, neither muted nor deafened.
    pub open spec fn initial() -> ShardState {
        ShardState {
            self_mute: false,
            self_deaf: false,
            activity: None,
            afk: false,
            afk_since: None,
            status: Status::Online,
        }
    }

    /// The state after a presence update: each given part replaces the one
    /// kept, each part not given stays.
    pub open spec fn with_presence(
        self,
        status: Option<Status>,
        since: Option<u64>,
        activity: Option<ActivityUpdate>,
        afk: Option<bool>,
    ) -> ShardState {
        ShardState {
            afk: match afk {
                Some(a) => a,
                None => self.afk,
            },
            afk_since: match since {
                Some(t) => Some(t),
                None => self.afk_since,
            },
            status: match status {
                Some(s) => s,
                None => self.status,
            },
            activity: match activity {
                Some(u) => Some(activity_from_update(u)),
                None => self.activity,
            },
            ..self
        }
    }

    /// The state after a voice update: the given flags replace the ones kept.
    pub open spec fn with_voice(self, self_mute: Option<bool>, self_deaf: Option<bool>) -> ShardState {
        ShardState {
            self_mute: match self_mute {
                Some(m) => m,
                None => self.self_mute,
            },
            self_deaf: match self_deaf {
                Some(d) => d,
                None => self.self_deaf,
            },
            ..self
        }
    }

    /// The presence payload that announces this state.
    pub open spec fn presence_payload_matches(self, p: PresencePayload) -> bool {
        &&& p.activities@ == activities_of(self.activity)
        &&& p.afk == self.afk
        &&& p.since == self.afk_since
        &&& p.status == self.status
    }

    /// The voice payload that announces this state in a guild's channel.
    pub open spec fn voice_payload(self, guild_id: u64, channel_id: Option<u64>) -> VoicePayload {
        VoicePayload {
            guild_id,
            channel_id,
            self_deaf: self.self_deaf,
            self_mute: self.self_mute,
        }
    }

    pub fn new() -> (s: Self)
        ensures
            s == Self::initial(),
    {
        ShardState {
            self_mute: false,
            self_deaf: false,
            activity: None,
            afk: false,
            afk_since: None,
            status: Status::Online,
        }
    }

    /// A copy of this state.
    pub fn duplicate(&self) -> (r: Self)
        ensures
            r == *self,
    {
        let activity = match &self.activity {
            Some(a) => Some(a.clone()),
            None => None,
        };
        ShardState {
            self_mute: self.self_mute,
            self_deaf: self.self_deaf,
            activity,
            afk: self.afk,
            afk_since: self.afk_since,
            status: self.status,
        }
    }

    /// The presence payload announcing the current state.
    pub fn to_presence_payload(&self) -> (p: PresencePayload)
        ensures
            self.presence_payload_matches(p),
    {
        let mut activities: Vec<Activity> = Vec::new();
        match &self.activity {
            Some(a) => activities.push(a.clone()),
            None => {},
        }
        PresencePayload {
            activities,
            afk: self.afk,
            since: self.afk_since,
            status: self.status,
        }
    }

    /// The voice payload announcing the current mute and deafen flags in a
    /// guild's channel (no channel: leave voice).
    pub fn to_voice_payload(&self, guild_id: u64, channel_id: Option<u64>) -> (p: VoicePayload)
        ensures
            p == self.voice_payload(guild_id, channel_id),
    {
        VoicePayload { guild_id, channel_id, self_deaf: self.self_deaf, self_mute: self.self_mute }
    }

    /// Replaces the activity with one of the given kind, name and URL.
    pub fn set_activity(&mut self, kind: u8, name: String, url: Option<String>)
        ensures
            *final(self) == (ShardState {
                activity: Some(Activity { kind: activity_kind_of(kind), name, url }),
                ..*old(self)
            }),
    {
        let kind = activity_type_from(kind);
        self.activity = Some(Activity { kind, name, url });
    }

    /// Applies a presence update and returns the payload that announces the
    /// new state.
    pub fn apply_presence(
        &mut self,
        status: Option<Status>,
        since: Option<u64>,
        activity: Option<ActivityUpdate>,
        afk: Option<bool>,
    ) -> (p: PresencePayload)
        ensures
            *final(self) == old(self).with_presence(status, since, activity, afk),
            final(self).presence_payload_matches(p),
    {
        if let Some(a) = afk {
            self.afk = a;
        }
        if let Some(t) = since {
            self.afk_since = Some(t);
        }
        if let Some(s) = status {
            self.status = s;
        }
        if let Some(u) = activity {
            self.set_activity(u.kind, u.name, u.url);
        }
        self.to_presence_payload()
    }

    /// Applies a voice update and returns the payload that announces it in a
    /// guild's channel.
    pub fn apply_voice(
        &mut self,
        guild_id: u64,
        channel_id: Option<u64>,
        self_mute: Option<bool>,
        self_deaf: Option<bool>,
    ) -> (p: VoicePayload)
        ensures
            *final(self) == old(self).with_voice(self_mute, self_deaf),
            p == final(self).voice_payload(guild_id, channel_id),
    {
        if let Some(m) = self_mute {
            self.self_mute = m;
        }
        if let Some(d) = self_deaf {
            self.self_deaf = d;
        }
        self.to_voice_payload(guild_id, channel_id)
    }
}

impl Default for ShardState {
    fn default() -> (s: Self)
        ensures
            s == ShardState::initial(),
    {
        Self::new()
    }
}

/// A presence update changes no voice flag, a voice update no part of the
/// presence, and the two may be applied in either order.
pub proof fn lemma_presence_and_voice_commute(
    s: ShardState,
    status: Option<Status>,
    since: Option<u64>,
    activity: Option<ActivityUpdate>,
    afk: Option<bool>,
    self_mute: Option<bool>,
    self_deaf: Option<bool>,
)
    ensures
        s.with_presence(status, since, activity, afk).self_mute == s.self_mute,
        s.with_presence(status, since, activity, afk).self_deaf == s.self_deaf,
        s.with_voice(self_mute, self_deaf).activity == s.activity,
        s.with_voice(self_mute, self_deaf).status == s.status,
        s.with_voice(self_mute, self_deaf).afk == s.afk,
        s.with_voice(self_mute, self_deaf).afk_since == s.afk_since,
        s.with_presence(status, since, activity, afk).with_voice(self_mute, self_deaf)
            == s.with_voice(self_mute, self_deaf).with_presence(status, since, activity, afk),
{
}

/// Applying the same presence update twice leaves the state the first
/// application left, and so does the same voice update.
pub proof fn lemma_updates_idempotent(
    s: ShardState,
    status: Option<Status>,
    since: Option<u64>,
    activity: Option<ActivityUpdate>,
    afk: Option<bool>,
    self_mute: Option<bool>,
    self_deaf: Option<bool>,
)
    ensures
        s.with_presence(status, since, activity, afk).with_presence(status, since, activity, afk)
            == s.with_presence(status, since, activity, afk),
        s.with_voice(self_mute, self_deaf).with_voice(self_mute, self_deaf)
            == s.with_voice(self_mute, self_deaf),
{
}

/// An update that gives nothing leaves the state as it was.
pub proof fn lemma_empty_update_keeps_state(s: ShardState)
    ensures
        s.with_presence(None, None, None, None) == s,
        s.with_voice(None, None) == s,
{
}

/// A voice update sets each flag it gives to the given value, whatever the
/// flag held before, keeps each flag it does not give, and the voice payload
/// of the new state announces those flags.
pub proof fn lemma_voice_update_sets_given_flags(
    s: ShardState,
    self_mute: Option<bool>,
    self_deaf: Option<bool>,
    guild_id: u64,
    channel_id: Option<u64>,
)
    ensures
        self_mute matches Some(m) ==> s.with_voice(self_mute, self_deaf).self_mute == m,
        self_mute is None ==> s.with_voice(self_mute, self_deaf).self_mute == s.self_mute,
        self_deaf matches Some(d) ==> s.with_voice(self_mute, self_deaf).self_deaf == d,
        self_deaf is None ==> s.with_voice(self_mute, self_deaf).self_deaf == s.self_deaf,
        s.with_voice(self_mute, self_deaf).voice_payload(guild_id, channel_id).self_mute == s.with_voice(
            self_mute,
            self_deaf,
        ).self_mute,
        s.with_voice(self_mute, self_deaf).voice_payload(guild_id, channel_id).self_deaf == s.with_voice(
            self_mute,
            self_deaf,
        ).self_deaf,
        s.with_voice(self_mute, self_deaf).voice_payload(guild_id, channel_id).guild_id == guild_id,
        s.with_voice(self_mute, self_deaf).voice_payload(guild_id, channel_id).channel_id == channel_id,
{
}

/// Unmuting and undeafening work: a voice update giving `false` on a muted
/// and deafened state leaves both flags off.
pub proof fn lemma_voice_flags_can_be_cleared(s: ShardState)
    requires
        s.self_mute,
        s.self_deaf,
    ensures
        !s.with_voice(Some(false), Some(false)).self_mute,
        !s.with_voice(Some(false), Some(false)).self_deaf,
{
}

/// A presence update sets each part it gives to the given value, whatever
/// the part held before (a later idle time replaces an earlier one, `afk`
/// can be cleared), keeps each part it does not give, and every payload
/// announcing the new state carries those parts.
pub proof fn lemma_presence_update_sets_given_parts(
    s: ShardState,
    status: Option<Status>,
    since: Option<u64>,
    activity: Option<ActivityUpdate>,
    afk: Option<bool>,
    p: PresencePayload,
)
    ensures
        afk matches Some(a) ==> s.with_presence(status, since, activity, afk).afk == a,
        afk is None ==> s.with_presence(status, since, activity, afk).afk == s.afk,
        since matches Some(t) ==> s.with_presence(status, since, activity, afk).afk_since == Some(t),
        since is None ==> s.with_presence(status, since, activity, afk).afk_since == s.afk_since,
        status matches Some(st) ==> s.with_presence(status, since, activity, afk).status == st,
        status is None ==> s.with_presence(status, since, activity, afk).status == s.status,
        activity matches Some(u) ==> s.with_presence(status, since, activity, afk).activity == Some(
            Activity { kind: activity_kind_of(u.kind), name: u.name, url: u.url },
        ),
        activity is None ==> s.with_presence(status, since, activity, afk).activity == s.activity,
        s.with_presence(status, since, activity, afk).presence_payload_matches(p) ==> {
            &&& (afk matches Some(a) ==> p.afk == a)
            &&& (since matches Some(t) ==> p.since == Some(t))
            &&& (status matches Some(st) ==> p.status == st)
            &&& (activity matches Some(u) ==> p.activities@ == seq![
                Activity { kind: activity_kind_of(u.kind), name: u.name, url: u.url },
            ])
        },
{
}

/// Clearing `afk` works, and a later idle time replaces an earlier one.
pub proof fn lemma_presence_parts_can_be_replaced(s: ShardState, t: u64)
    requires
        s.afk,
        s.afk_since is Some,
    ensures
        !s.with_presence(None, None, None, Some(false)).afk,
        s.with_presence(None, Some(t), None, None).afk_since == Some(t),
{
}

} // verus!
