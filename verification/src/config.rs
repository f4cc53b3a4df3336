use vstd::prelude::*;

verus! {

/// Settings of the chat-webhook channel: the target URL and the optional
/// display-name and avatar overrides carried in each payload.
pub struct WebhookConfig {
    pub webhook: String,
    pub username: Option<String>,
    pub avatar: Option<String>,
}

/// Settings of the remote document database that is polled: the bearer
/// credential, the database identifier, and an optional API version string
/// (a calendar-versioned default applies when absent).
pub struct SourceConfig {
    pub secret: String,
    pub database: String,
    pub api_version: Option<String>,
}

/// Settings of the optional email channel: recipient, sender, SMTP domain
/// and the credentials used for authentication.
pub struct MailConfig {
    pub to: String,
    pub from: String,
    pub domain: String,
    pub user: String,
    pub pass: String,
}

/// The resolved configuration handed to the core, immutable for the
/// process lifetime. The email channel is attempted only when `mail` is
/// present.
pub struct Config {
    pub discord: WebhookConfig,
    pub notion: SourceConfig,
    pub mail: Option<MailConfig>,
    /// Poll interval in seconds.
    pub interval: u64,
}

} // verus!
