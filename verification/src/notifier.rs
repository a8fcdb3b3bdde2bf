//! The notifier: from a message text and the configuration to the one POST
//! that delivers the alert, and from the end of that POST to the result.

use vstd::prelude::*;
use crate::outcome::is_success;
use crate::reply::{Reply, ReplyView};

verus! {

/// The address alerts are posted to.
pub open spec fn endpoint_text() -> Seq<char> {
    "https://slack.com/api/chat.postMessage"@
}

/// The content type of the post: a form, URL-encoded.
pub open spec fn content_type_text() -> Seq<char> {
    "application/x-www-form-urlencoded"@
}

/// The one channel alerts go to unless the configuration names another.
pub open spec fn default_channel_text() -> Seq<char> {
    "notifications"@
}

/// A setting the notifier cannot do without.
#[derive(Clone, Copy, Debug, PartialEq, Eq)]
pub enum Setting {
    /// The credential of the messaging provider.
    Token,
    /// The name of the destination channel.
    Channel,
}

/// Why a post did not deliver its alert.
#[derive(Clone, Debug, PartialEq, Eq)]
pub enum DeliveryError {
    /// No HTTP response was obtained.
    Transport { cause: String },
    /// The provider answered with a status outside the success range.
    Rejected { status: u16 },
}

/// Why a notification failed. A failed notification never fails the
/// invocation; it is handed back as a value.
#[derive(Clone, Debug, PartialEq, Eq)]
pub enum NotifyError {
    /// A setting was missing when the alert had to be sent; nothing was posted.
    Configuration { missing: Setting },
    /// The post was made and did not succeed.
    Delivery { failure: DeliveryError },
}

/// The mathematical value of a [`DeliveryError`].
pub ghost enum DeliveryErrorView {
    Transport { cause: Seq<char> },
    Rejected { status: u16 },
}

/// The mathematical value of a [`NotifyError`].
pub ghost enum NotifyErrorView {
    Configuration { missing: Setting },
    Delivery { failure: DeliveryErrorView },
}

impl View for DeliveryError {
    type V = DeliveryErrorView;

    open spec fn view(&self) -> DeliveryErrorView {
        match self {
            DeliveryError::Transport { cause } => DeliveryErrorView::Transport {
                cause: cause@,
            },
            DeliveryError::Rejected { status } => DeliveryErrorView::Rejected {
                status: *status,
            },
        }
    }
}

impl View for NotifyError {
    type V = NotifyErrorView;

    open spec fn view(&self) -> NotifyErrorView {
        match self {
            NotifyError::Configuration { missing } => NotifyErrorView::Configuration {
                missing: *missing,
            },
            NotifyError::Delivery { failure } => NotifyErrorView::Delivery { failure: failure@ },
        }
    }
}

/// The settings of the notifier as they were found: a setting that could not
/// be resolved is `None`.
#[derive(Clone, Debug, PartialEq, Eq)]
pub struct Config {
    pub token: Option<String>,
    pub channel: Option<String>,
}

/// The mathematical value of a [`Config`].
pub ghost struct ConfigView {
    pub token: Option<Seq<char>>,
    pub channel: Option<Seq<char>>,
}

impl View for Config {
    type V = ConfigView;

    open spec fn view(&self) -> ConfigView {
        ConfigView { token: self.token.deep_view(), channel: self.channel.deep_view() }
    }
}

impl Config {
    /// The configuration with the credential as it was found and the default
    /// channel.
    pub fn with_default_channel(token: Option<String>) -> (config: Config)
        ensures
            config@ == (ConfigView {
                token: token.deep_view(),
                channel: Some(default_channel_text()),
            }),
    {
        Config { token, channel: Some("notifications".to_owned()) }
    }
}

/// An alert: a text for a channel.
#[derive(Clone, Debug, PartialEq, Eq)]
pub struct AlertMessage {
    pub channel: String,
    pub text: String,
}

/// The mathematical value of an [`AlertMessage`].
pub ghost struct AlertMessageView {
    pub channel: Seq<char>,
    pub text: Seq<char>,
}

impl View for AlertMessage {
    type V = AlertMessageView;

    open spec fn view(&self) -> AlertMessageView {
        AlertMessageView { channel: self.channel@, text: self.text@ }
    }
}

/// The one outbound request of a notification: a POST of a form.
#[derive(Clone, Debug, PartialEq, Eq)]
pub struct PostRequest {
    /// The address to post to.
    pub endpoint: String,
    /// The value of the `Content-Type` header.
    pub content_type: String,
    /// The form's fields, each a name and a value, in the order they are sent.
    /// They are not yet encoded.
    pub fields: Vec<(String, String)>,
}

/// The mathematical value of a [`PostRequest`].
pub ghost struct PostRequestView {
    pub endpoint: Seq<char>,
    pub content_type: Seq<char>,
    pub fields: Seq<(Seq<char>, Seq<char>)>,
}

impl View for PostRequest {
    type V = PostRequestView;

    open spec fn view(&self) -> PostRequestView {
        PostRequestView {
            endpoint: self.endpoint@,
            content_type: self.content_type@,
            fields: self.fields.deep_view(),
        }
    }
}

/// The post that delivers `message` under the credential `token`: three
/// fields, the credential, the channel and the text, each exactly as given.
pub open spec fn alert_post(token: Seq<char>, message: AlertMessageView) -> PostRequestView {
    PostRequestView {
        endpoint: endpoint_text(),
        content_type: content_type_text(),
        fields: seq![
            ("token"@, token),
            ("channel"@, message.channel),
            ("text"@, message.text),
        ],
    }
}

/// The alert that carries `text` under `config`, or the setting that is
/// missing for it.
pub open spec fn composed(config: ConfigView, text: Seq<char>) -> Result<
    AlertMessageView,
    NotifyErrorView,
> {
    match config.channel {
        Some(channel) => Ok(AlertMessageView { channel, text }),
        None => Err(NotifyErrorView::Configuration { missing: Setting::Channel }),
    }
}

/// The post that a notification of `text` under `config` makes, or the
/// setting that is missing for it. The credential is looked for first.
pub open spec fn prepared(config: ConfigView, text: Seq<char>) -> Result<
    PostRequestView,
    NotifyErrorView,
> {
    match config.token {
        None => Err(NotifyErrorView::Configuration { missing: Setting::Token }),
        Some(token) => match composed(config, text) {
            Ok(message) => Ok(alert_post(token, message)),
            Err(error) => Err(error),
        },
    }
}

/// The result of a notification whose post ended in `reply`. The HTTP status is
/// the only acknowledgement that counts: a status in the success range is a
/// delivery whatever the response's body says, and the body is not looked at.
pub open spec fn delivered(reply: ReplyView) -> Result<(), NotifyErrorView> {
    match reply {
        ReplyView::NoResponse { cause } => Err(
            NotifyErrorView::Delivery { failure: DeliveryErrorView::Transport { cause } },
        ),
        ReplyView::Response { status, body } => if is_success(status) {
            Ok(())
        } else {
            Err(NotifyErrorView::Delivery { failure: DeliveryErrorView::Rejected { status } })
        },
    }
}

/// A composed alert or an error, by their mathematical values.
pub open spec fn message_view(made: Result<AlertMessage, NotifyError>) -> Result<
    AlertMessageView,
    NotifyErrorView,
> {
    match made {
        Ok(message) => Ok(message@),
        Err(error) => Err(error@),
    }
}

/// A prepared post or an error, by their mathematical values.
pub open spec fn post_view(made: Result<PostRequest, NotifyError>) -> Result<
    PostRequestView,
    NotifyErrorView,
> {
    match made {
        Ok(request) => Ok(request@),
        Err(error) => Err(error@),
    }
}

/// The result of a notification, by its mathematical value.
pub open spec fn result_view(result: Result<(), NotifyError>) -> Result<(), NotifyErrorView> {
    match result {
        Ok(()) => Ok(()),
        Err(error) => Err(error@),
    }
}

impl PostRequest {
    /// The post that delivers `message` under the credential `token`.
    pub fn for_alert(token: String, message: AlertMessage) -> (request: PostRequest)
        ensures
            request@ == alert_post(token@, message@),
    {
        let mut fields: Vec<(String, String)> = Vec::new();
        fields.push(("token".to_owned(), token));
        fields.push(("channel".to_owned(), message.channel));
        fields.push(("text".to_owned(), message.text));
        let request = PostRequest {
            endpoint: "https://slack.com/api/chat.postMessage".to_owned(),
            content_type: "application/x-www-form-urlencoded".to_owned(),
            fields,
        };
        assert(request@.fields =~= alert_post(token@, message@).fields);
        request
    }
}

/// Sends alerts under one configuration, which it is given when it is made.
#[derive(Clone, Debug, PartialEq, Eq)]
pub struct Notifier {
    config: Config,
}

impl View for Notifier {
    type V = ConfigView;

    closed spec fn view(&self) -> ConfigView {
        self.config@
    }
}

impl Notifier {
    /// A notifier under `config`. Making one never fails: a missing setting
    /// shows only when an alert has to be sent.
    pub fn new(config: Config) -> (notifier: Notifier)
        ensures
            notifier@ == config@,
    {
        Notifier { config }
    }

    /// Composes the alert for `text`: the text unchanged, for the configured
    /// channel.
    pub fn compose(&self, text: &str) -> (made: Result<AlertMessage, NotifyError>)
        ensures
            message_view(made) == composed(self@, text@),
    {
        match &self.config.channel {
            Some(channel) => Ok(AlertMessage { channel: channel.clone(), text: text.to_owned() }),
            None => Err(NotifyError::Configuration { missing: Setting::Channel }),
        }
    }

    /// Prepares the one post of a notification of `text`. Where a setting is
    /// missing, the error names it and nothing is to be posted.
    pub fn prepare(&self, text: &str) -> (made: Result<PostRequest, NotifyError>)
        ensures
            post_view(made) == prepared(self@, text@),
    {
        match &self.config.token {
            None => Err(NotifyError::Configuration { missing: Setting::Token }),
            Some(token) => match self.compose(text) {
                Ok(message) => Ok(PostRequest::for_alert(token.clone(), message)),
                Err(error) => Err(error),
            },
        }
    }

    /// Turns the end of the post into the result of the notification.
    pub fn conclude(reply: Reply) -> (result: Result<(), NotifyError>)
        ensures
            result_view(result) == delivered(reply@),
    {
        match reply {
            Reply::NoResponse { cause } => Err(
                NotifyError::Delivery { failure: DeliveryError::Transport { cause } },
            ),
            Reply::Response { status, body } => if 200 <= status && status <= 299 {
                Ok(())
            } else {
                Err(NotifyError::Delivery { failure: DeliveryError::Rejected { status } })
            },
        }
    }
}

} // verus!
