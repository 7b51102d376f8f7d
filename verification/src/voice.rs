//! Per-guild voice sessions.
//!
//! The bridge owns an explicit map from guild id to the voice channel it is
//! streaming into. A map key holds at most one entry, so a guild never has
//! two sessions at once. The gateway work itself (joining, leaving, feeding
//! audio) happens outside; the bridge records what it decided.

use vstd::prelude::*;

use std::collections::HashMap;

verus! {

broadcast use vstd::std_specs::hash::group_hash_axioms;

/// The voice sessions of all guilds: guild id to voice channel id.
pub struct VoiceBridge {
    sessions: HashMap<u64, u64>,
}

impl VoiceBridge {
    /// Which guild streams into which channel.
    pub closed spec fn spec_sessions(&self) -> Map<u64, u64> {
        self.sessions@
    }

    /// Starts with no session anywhere.
    pub fn new() -> (r: Self)
        ensures
            r.spec_sessions() == Map::<u64, u64>::empty(),
    {
        VoiceBridge { sessions: HashMap::new() }
    }

    /// Whether the guild has an active session.
    pub fn has_session(&self, guild: u64) -> (b: bool)
        ensures
            b == self.spec_sessions().contains_key(guild),
    {
        self.sessions.contains_key(&guild)
    }

    /// The channel the guild streams into, if any.
    pub fn session_channel(&self, guild: u64) -> (r: Option<u64>)
        ensures
            match r {
                Some(c) => self.spec_sessions().contains_key(guild) && self.spec_sessions()[guild]
                    == c,
                None => !self.spec_sessions().contains_key(guild),
            },
    {
        match self.sessions.get(&guild) {
            Some(c) => Some(*c),
            None => None,
        }
    }

    /// Records a session: the guild now streams into `channel`, replacing any
    /// session it had before, so at most one stands per guild.
    pub fn record_join(&mut self, guild: u64, channel: u64)
        ensures
            final(self).spec_sessions() == old(self).spec_sessions().insert(guild, channel),
    {
        self.sessions.insert(guild, channel);
    }

    /// Drops the guild's session, if it had one.
    pub fn record_quit(&mut self, guild: u64)
        ensures
            final(self).spec_sessions() == old(self).spec_sessions().remove(guild),
    {
        self.sessions.remove(&guild);
    }
}

} // verus!
