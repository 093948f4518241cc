use vstd::prelude::*;
use crate::service::discord::DiscordService;

verus! {

/// The process-wide configuration: the bot credential and the REST client built on it.
pub struct HomenisState {
    pub token: String,
    pub discord: DiscordService,
}

impl HomenisState {
    /// The state for a credential, with the REST client on the public API.
    pub fn new(token: String) -> (r: HomenisState)
        ensures
            r.token@ == token@,
            r.discord.token@ == token@,
            r.discord.baseurl@ == "https://discordapp.com/api"@,
    {
        let discord = DiscordService::new(token.as_str(), "https://discordapp.com/api");
        HomenisState { token, discord }
    }

    pub fn token(&self) -> (r: String)
        ensures
            r@ == self.token@,
    {
        self.token.clone()
    }
}

} // verus!
