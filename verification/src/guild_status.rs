//! The future that asks whether one guild is whitelisted.

use vstd::prelude::*;

use crate::cdn::GuildId;

verus! {

/// The environment variable that holds the whitelist database credentials.
pub const WHITELIST_CREDENTIALS_VARIABLE: &'static str = "PGSQL_WHITELIST_DB_CREDENTIALS";

/// What a poll of `GetGuildWhitelistStatus` does: start a new request for
/// the guild, replacing any earlier one, and poll it.
#[derive(Debug)]
pub enum GuildStatusPoll {
    LaunchAndPoll { guild_id: GuildId },
}

/// The future that gets the whitelist status of a guild: the guild, and
/// whether a request for it has been started.
#[derive(Debug)]
pub struct GetGuildWhitelistStatus {
    launched: bool,
    guild_id: GuildId,
}

impl GetGuildWhitelistStatus {
    /// Whether a request has been started.
    pub closed spec fn is_launched(&self) -> bool {
        self.launched
    }

    /// The guild asked about.
    pub closed spec fn spec_guild_id(&self) -> u64 {
        self.guild_id.spec_value()
    }

    /// A future for `guild_id` that has started no request.
    pub fn new(guild_id: GuildId) -> (f: GetGuildWhitelistStatus)
        ensures
            !f.is_launched(),
            f.spec_guild_id() == guild_id.spec_value(),
    {
        GetGuildWhitelistStatus { launched: false, guild_id }
    }

    /// Starts a request, replacing any earlier one; returns the guild to ask about.
    fn launch(&mut self) -> (guild_id: GuildId)
        ensures
            final(self).is_launched(),
            final(self).spec_guild_id() == old(self).spec_guild_id(),
            guild_id.spec_value() == old(self).spec_guild_id(),
    {
        self.launched = true;
        self.guild_id
    }

    /// Polls the future: every poll starts a new request for the same guild
    /// and polls it.
    pub fn poll(&mut self) -> (action: GuildStatusPoll)
        ensures
            final(self).is_launched(),
            final(self).spec_guild_id() == old(self).spec_guild_id(),
            action matches GuildStatusPoll::LaunchAndPoll { guild_id } && guild_id.spec_value()
                == old(self).spec_guild_id(),
    {
        loop
            invariant
                self.spec_guild_id() == old(self).spec_guild_id(),
            decreases 1int,
        {
            let guild_id = self.launch();
            if self.launched {
                return GuildStatusPoll::LaunchAndPoll { guild_id };
            }
        }
    }
}

} // verus!
