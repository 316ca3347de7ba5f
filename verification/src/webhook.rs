//! What is sent to the webhook: short texts and dump files.
//!
//! Nothing here goes over the network: each function says what is to be
//! posted and where, and the caller posts it.

use crate::paths::{file_name, file_name_of};
use vstd::prelude::*;
use vstd::string::*;

verus! {

/// The name under which everything is posted: `PSQL BACKUPER`.
pub open spec fn sender_name() -> Seq<char> {
    "PSQL BACKUPER"@
}

/// Something to tell the webhook.
#[derive(Debug, Clone, PartialEq, Eq)]
pub enum NotificationEvent {
    /// A short text.
    TextMessage { content: String },
    /// A file, read at `path` and shown as `display_name`.
    FileUpload { path: String, display_name: String },
}

pub ghost enum NotificationEventView {
    TextMessage { content: Seq<char> },
    FileUpload { path: Seq<char>, display_name: Seq<char> },
}

impl View for NotificationEvent {
    type V = NotificationEventView;

    open spec fn view(&self) -> NotificationEventView {
        match self {
            NotificationEvent::TextMessage { content } => NotificationEventView::TextMessage {
                content: content@,
            },
            NotificationEvent::FileUpload {
                path,
                display_name,
            } => NotificationEventView::FileUpload { path: path@, display_name: display_name@ },
        }
    }
}

/// One post to a webhook.
#[derive(Debug, Clone, PartialEq, Eq)]
pub struct WebhookCall {
    pub url: String,
    pub username: String,
    pub event: NotificationEvent,
}

pub ghost struct WebhookCallView {
    pub url: Seq<char>,
    pub username: Seq<char>,
    pub event: NotificationEventView,
}

impl View for WebhookCall {
    type V = WebhookCallView;

    open spec fn view(&self) -> WebhookCallView {
        WebhookCallView { url: self.url@, username: self.username@, event: self.event@ }
    }
}

/// Why nothing can be posted.
#[derive(Debug, Clone, Copy, PartialEq, Eq, Structural)]
pub enum NotificationError {
    /// The path to upload has no final component.
    InvalidFileName,
}

impl NotificationError {
    /// The error in words.
    pub fn message(&self) -> (text: String)
        ensures
            text@ == "Invalid file name"@,
    {
        "Invalid file name".to_owned()
    }
}

/// The post of `event` to `url`.
pub open spec fn post(url: Seq<char>, event: NotificationEventView) -> WebhookCallView {
    WebhookCallView { url, username: sender_name(), event }
}

/// The post of the text `content` to `url`.
pub open spec fn message_post(url: Seq<char>, content: Seq<char>) -> WebhookCallView {
    post(url, NotificationEventView::TextMessage { content })
}

/// The post of the file at `path` to `url`: the file is shown under the
/// final component of `path`, and nothing can be posted where `path` has
/// none (the empty path, the root, a path that ends in `..`).
pub open spec fn file_post(url: Seq<char>, path: Seq<char>) -> Result<
    WebhookCallView,
    NotificationError,
> {
    match file_name(path) {
        Some(display_name) => Ok(
            post(url, NotificationEventView::FileUpload { path, display_name }),
        ),
        None => Err(NotificationError::InvalidFileName),
    }
}

/// Plans the posts to one webhook.
#[derive(Debug, Clone, PartialEq, Eq)]
pub struct WebhookClient {
    url: String,
}

impl WebhookClient {
    /// The address that the posts go to.
    pub closed spec fn address(&self) -> Seq<char> {
        self.url@
    }

    /// A planner of posts to the webhook at `url`.
    pub fn new(url: &str) -> (client: Self)
        ensures
            client.address() == url@,
    {
        Self { url: url.to_owned() }
    }

    fn post(&self, event: NotificationEvent) -> (call: WebhookCall)
        ensures
            call@ == post(self.address(), event@),
    {
        WebhookCall { url: self.url.clone(), username: "PSQL BACKUPER".to_owned(), event }
    }

    /// The post of the text `content`.
    pub fn send_message(&self, content: &str) -> (call: WebhookCall)
        ensures
            call@ == message_post(self.address(), content@),
    {
        self.post(NotificationEvent::TextMessage { content: content.to_owned() })
    }

    /// The post of the file at `path`, shown under its final component; an
    /// error where `path` has none.
    pub fn send_file(&self, path: &str) -> (call: Result<WebhookCall, NotificationError>)
        ensures
            match file_post(self.address(), path@) {
                Ok(post) => call matches Ok(c) && c@ == post,
                Err(e) => call == Err::<WebhookCall, NotificationError>(e),
            },
    {
        match file_name_of(path) {
            Some(display_name) => Ok(
                self.post(NotificationEvent::FileUpload { path: path.to_owned(), display_name }),
            ),
            None => Err(NotificationError::InvalidFileName),
        }
    }
}

} // verus!
