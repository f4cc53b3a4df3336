use vstd::prelude::*;

verus! {

/// One delivery mechanism for a notification, configured independently
/// and attempted per new item.
#[derive(Clone, Copy, Debug, PartialEq, Eq, Structural)]
pub enum Channel {
    Webhook,
    Email,
}

/// The error taxonomy of the poll/dispatch core. Any of these is fatal to
/// the poll loop: the core performs no retries and no partial-failure
/// recovery, and the process is expected to be restarted externally.
#[derive(Clone, Copy, Debug, PartialEq, Eq, Structural)]
pub enum NotifyError {
    /// Network or HTTP failure reaching the database, webhook or SMTP
    /// endpoint.
    Transport,
    /// A response body that does not parse into the expected shape.
    Decode,
    /// Delivery to one notification channel failed; the channel names
    /// which one.
    ChannelFailed(Channel),
    /// Malformed or missing configuration, raised during bootstrap by the
    /// surrounding glue, never by the core itself.
    Config,
}

} // verus!
