use vstd::prelude::*;
use vstd::string::StringExecFns;

use crate::config::{MailConfig, WebhookConfig};
use crate::errors::{Channel, NotifyError};
use crate::page::Page;
use crate::template::{template_is_url_only, url_only_template};

verus! {

/// The body POSTed to the chat webhook for one new item.
pub struct WebhookPayload {
    pub content: String,
    pub username: Option<String>,
    pub avatar_url: Option<String>,
}

/// The message handed to the SMTP transport for one new item.
pub struct EmailMessage {
    pub to: String,
    pub from: String,
    pub subject: String,
    pub body_html: String,
}

/// The announcement text for one new item: a fixed prefix followed by the
/// item's display URL.
pub fn webhook_content(page: &Page) -> (c: String)
    ensures
        c@ == "New post: "@ + page.url@,
{
    let mut c = String::from_str("New post: ");
    c.append(page.url.as_str());
    c
}

fn clone_opt_string(o: &Option<String>) -> (r: Option<String>)
    ensures
        r == *o,
{
    match o {
        Some(s) => Some(s.clone()),
        None => None,
    }
}

/// The full webhook payload for one new item: the announcement content
/// plus the configured display-name and avatar overrides, passed through
/// unchanged.
pub fn webhook_payload(cfg: &WebhookConfig, page: &Page) -> (p: WebhookPayload)
    ensures
        p.content@ == "New post: "@ + page.url@,
        p.username == cfg.username,
        p.avatar_url == cfg.avatar,
{
    WebhookPayload {
        content: webhook_content(page),
        username: clone_opt_string(&cfg.username),
        avatar_url: clone_opt_string(&cfg.avatar),
    }
}

/// Where one item's delivery stands. Channels are attempted sequentially,
/// webhook first, then email if configured; the first failed channel
/// aborts the rest of the item's dispatch.
#[derive(Clone, Copy, Debug, PartialEq, Eq, Structural)]
pub enum DispatchPhase {
    AwaitingWebhook,
    AwaitingEmail,
    Complete,
    Aborted(Channel),
}

/// The channel the surrounding loop must attempt next for this item, or
/// nothing when the item's dispatch is over.
pub open spec fn spec_pending_channel(phase: DispatchPhase) -> Option<Channel> {
    match phase {
        DispatchPhase::AwaitingWebhook => Some(Channel::Webhook),
        DispatchPhase::AwaitingEmail => Some(Channel::Email),
        DispatchPhase::Complete => None,
        DispatchPhase::Aborted(_) => None,
    }
}

/// How one item's delivery advances once the pending channel has been
/// attempted: a failure aborts the item naming the failed channel; a
/// delivered webhook hands over to the email channel only when one is
/// configured.
pub open spec fn spec_dispatch_step(
    phase: DispatchPhase,
    delivered: bool,
    email_configured: bool,
) -> DispatchPhase {
    match phase {
        DispatchPhase::AwaitingWebhook => {
            if !delivered {
                DispatchPhase::Aborted(Channel::Webhook)
            } else if email_configured {
                DispatchPhase::AwaitingEmail
            } else {
                DispatchPhase::Complete
            }
        },
        DispatchPhase::AwaitingEmail => {
            if !delivered {
                DispatchPhase::Aborted(Channel::Email)
            } else {
                DispatchPhase::Complete
            }
        },
        DispatchPhase::Complete => DispatchPhase::Complete,
        DispatchPhase::Aborted(c) => DispatchPhase::Aborted(c),
    }
}

/// Dispatch of one item starts with the webhook channel.
pub fn dispatch_begin() -> (p: DispatchPhase)
    ensures
        p == DispatchPhase::AwaitingWebhook,
{
    DispatchPhase::AwaitingWebhook
}

/// The channel to attempt next, or `None` when this item is done
/// (completed or aborted).
pub fn pending_channel(phase: &DispatchPhase) -> (c: Option<Channel>)
    ensures
        c == spec_pending_channel(*phase),
{
    match phase {
        DispatchPhase::AwaitingWebhook => Some(Channel::Webhook),
        DispatchPhase::AwaitingEmail => Some(Channel::Email),
        DispatchPhase::Complete => None,
        DispatchPhase::Aborted(_) => None,
    }
}

/// Advances one item's delivery after the pending channel was attempted
/// with outcome `delivered`.
pub fn dispatch_step(phase: DispatchPhase, delivered: bool, email_configured: bool) -> (next:
    DispatchPhase)
    requires
        spec_pending_channel(phase) is Some,
    ensures
        next == spec_dispatch_step(phase, delivered, email_configured),
{
    match phase {
        DispatchPhase::AwaitingWebhook => {
            if !delivered {
                DispatchPhase::Aborted(Channel::Webhook)
            } else if email_configured {
                DispatchPhase::AwaitingEmail
            } else {
                DispatchPhase::Complete
            }
        },
        DispatchPhase::AwaitingEmail => {
            if !delivered {
                DispatchPhase::Aborted(Channel::Email)
            } else {
                DispatchPhase::Complete
            }
        },
        DispatchPhase::Complete => DispatchPhase::Complete,
        DispatchPhase::Aborted(c) => DispatchPhase::Aborted(c),
    }
}

/// The error an item's dispatch ends with: a channel failure exactly when
/// the item was aborted, naming the channel that failed.
pub fn dispatch_error(phase: &DispatchPhase) -> (e: Option<NotifyError>)
    ensures
        *phase matches DispatchPhase::Aborted(c) ==> e == Some(NotifyError::ChannelFailed(c)),
        !(*phase is Aborted) ==> e is None,
{
    match phase {
        DispatchPhase::Aborted(c) => Some(NotifyError::ChannelFailed(*c)),
        DispatchPhase::AwaitingWebhook => None,
        DispatchPhase::AwaitingEmail => None,
        DispatchPhase::Complete => None,
    }
}

/// A failed webhook delivery aborts the whole item: the phase becomes
/// `Aborted(Webhook)`, after which no channel is pending, so the email
/// channel is never attempted for that item.
pub proof fn lemma_webhook_failure_aborts_item(email_configured: bool)
    ensures
        spec_dispatch_step(DispatchPhase::AwaitingWebhook, false, email_configured)
            == DispatchPhase::Aborted(Channel::Webhook),
        spec_pending_channel(
            spec_dispatch_step(DispatchPhase::AwaitingWebhook, false, email_configured),
        ) is None,
{
}

/// What the renderer produces from a url-only template and a value for
/// its one variable: on that template class the result is a function of
/// the two texts alone.
pub uninterp spec fn rendered_of(template: Seq<char>, url: Seq<char>) -> Seq<char>;

/// Relies on `tera::Tera::one_off`: renders `template` with the value
/// `url` bound to the template variable `url`, with auto-escaping on.
/// The templating grammar at large can abort instead of erring (number
/// literals and arithmetic whose value leaves `f64` or `i64` reach an
/// `unwrap` in the renderer), so only templates whose sole tags are
/// `{{ url }}` substitutions are handed over. On those the parse is
/// valid, the one variable is always bound, and no built-in function —
/// nothing reading the clock, randomness or the environment — can be
/// invoked, so the call succeeds and the rendered text depends on the
/// two arguments alone; `rendered_of` names it.
#[verifier::external_body]
fn render_one_off(template: &str, url: &str) -> (r: Result<String, tera::Error>)
    requires
        url_only_template(template@),
    ensures
        r is Ok,
        r matches Ok(s) ==> s@ == rendered_of(template@, url@),
{
    let mut ctx = tera::Context::new();
    ctx.insert("url", url);
    tera::Tera::one_off(template, &ctx, true)
}

/// Renders the email body from the HTML template, with the item's URL
/// substituted for each `{{ url }}` block. A template holding any other
/// tag is rejected without rendering — a deliberate limitation, since the
/// renderer can abort on parts of its grammar — and rejection, like a
/// render failure, is the email channel failing.
pub fn render_email_body(template: &str, url: &str) -> (r: Result<String, NotifyError>)
    ensures
        r matches Err(e) ==> e == NotifyError::ChannelFailed(Channel::Email),
        !url_only_template(template@) ==> r is Err,
        url_only_template(template@) ==> (r matches Ok(s) && s@ == rendered_of(
            template@,
            url@,
        )),
{
    if !template_is_url_only(template) {
        return Err(NotifyError::ChannelFailed(Channel::Email));
    }
    match render_one_off(template, url) {
        Ok(s) => Ok(s),
        Err(_) => Err(NotifyError::ChannelFailed(Channel::Email)),
    }
}

/// The fixed subject line of every notification mail.
pub fn email_subject() -> (s: String)
    ensures
        s@ == "New post from ConnectDome"@,
{
    String::from_str("New post from ConnectDome")
}

/// The message for one new item: recipient and sender from the mail
/// settings, the fixed subject, and the rendered HTML body unchanged.
pub fn email_message(cfg: &MailConfig, body_html: String) -> (m: EmailMessage)
    ensures
        m.to@ == cfg.to@,
        m.from@ == cfg.from@,
        m.subject@ == "New post from ConnectDome"@,
        m.body_html == body_html,
{
    EmailMessage {
        to: cfg.to.clone(),
        from: cfg.from.clone(),
        subject: email_subject(),
        body_html,
    }
}

} // verus!
