//! Notifications shown to the user.

use vstd::prelude::*;

verus! {

/// The kind of a notification.
#[derive(Clone, Copy, Debug, PartialEq, Eq, Structural)]
pub enum NotificationType {
    Info,
    Warn,
    Error,
}

impl Default for NotificationType {
    /// `Info` is the default kind.
    fn default() -> (t: Self)
        ensures
            t == NotificationType::Info,
    {
        NotificationType::Info
    }
}

/// A notification: its kind, a title and the message.
#[derive(Clone, Debug, PartialEq)]
pub struct Notification {
    pub type_: NotificationType,
    pub title: String,
    pub content: String,
}

impl Default for Notification {
    /// An `Info` notification with empty title and content.
    fn default() -> (n: Self)
        ensures
            n.type_ == NotificationType::Info,
            n.title@ == Seq::<char>::empty(),
            n.content@ == Seq::<char>::empty(),
    {
        Notification { type_: NotificationType::Info, title: String::new(), content: String::new() }
    }
}

impl Notification {
    /// An error notification carrying `content`; the title is left empty.
    pub fn error_from_content(content: String) -> (n: Self)
        ensures
            n.type_ == NotificationType::Error,
            n.title@ == Seq::<char>::empty(),
            n.content == content,
    {
        Notification { type_: NotificationType::Error, title: String::new(), content }
    }
}

} // verus!
