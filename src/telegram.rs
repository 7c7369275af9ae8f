use vstd::prelude::*;

verus! {

/// The bot's access to Telegram's Bot API.
pub struct Telegram {
    pub token: String,
}

impl Telegram {
    pub fn new(token: String) -> (r: Telegram)
        ensures
            r.token@ == token@,
    {
        Telegram { token }
    }

    /// The request that points the bot's webhook at `host`.
    pub fn webhook_url(&self, host: &str) -> (r: String)
        ensures
            r@ == "https://api.telegram.org/bot"@ + self.token@ + "/setWebhook?url="@ + host@,
    {
        let mut r = String::from_str("https://api.telegram.org/bot");
        r.append(self.token.as_str());
        r.append("/setWebhook?url=");
        r.append(host);
        r
    }
}

} // verus!
