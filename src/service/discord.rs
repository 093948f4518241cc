use vstd::prelude::*;

verus! {

/// The body of a posted channel message, `{content}`.
pub struct DiscordPostMessage {
    pub content: String,
}

impl DiscordPostMessage {
    pub fn new(content: String) -> (r: Self)
        ensures
            r.content@ == content@,
    {
        Self { content }
    }
}

/// The authenticated REST collaborator: a credential and the API's base address.
pub struct DiscordService {
    pub token: String,
    pub baseurl: String,
}

impl Clone for DiscordService {
    fn clone(&self) -> (r: Self)
        ensures
            r.token@ == self.token@,
            r.baseurl@ == self.baseurl@,
    {
        DiscordService { token: self.token.clone(), baseurl: self.baseurl.clone() }
    }
}

impl DiscordService {
    pub fn new(token: &str, baseurl: &str) -> (r: Self)
        ensures
            r.token@ == token@,
            r.baseurl@ == baseurl@,
    {
        Self { token: String::from_str(token), baseurl: String::from_str(baseurl) }
    }

    /// The address of an endpoint: the base, a slash, the endpoint.
    #[allow(non_snake_case)]
    pub fn makeUrl(&self, endpoint: &str) -> (r: String)
        ensures
            r@ == self.baseurl@ + "/"@ + endpoint@,
    {
        let mut out = self.baseurl.clone();
        out.append("/");
        out.append(endpoint);
        out
    }

    /// The address to which a message for `channel` is posted.
    pub fn message_url(&self, channel: &str) -> (r: String)
        ensures
            r@ == self.baseurl@ + "/"@ + "channels"@ + "/"@ + channel@ + "/messages"@,
    {
        let mut out = self.makeUrl("channels");
        out.append("/");
        out.append(channel);
        out.append("/messages");
        out
    }

    /// The address of the gateway-discovery endpoint.
    pub fn gateway_url(&self) -> (r: String)
        ensures
            r@ == self.baseurl@ + "/"@ + "gateway/bot"@,
    {
        self.makeUrl("gateway/bot")
    }

    /// The value of the authorization header: `Bot ` and the credential.
    pub fn authorization(&self) -> (r: String)
        ensures
            r@ == "Bot "@ + self.token@,
    {
        let mut out = String::from_str("Bot ");
        out.append(self.token.as_str());
        out
    }
}

} // verus!
