//! Live notifications about comments, and what a client may ask of them.

use vstd::prelude::*;

verus! {

/// A notification pushed to the clients that follow a post.
#[derive(Debug)]
pub struct Notification {
    /// What happened.
    pub event_type: EventType,
    /// The post it happened to.
    pub post_id: i64,
    /// The comment concerned, if any.
    pub comment_id: Option<i64>,
    /// Who did it.
    pub actor: String,
    /// A sentence for people.
    pub message: String,
}

/// The kinds of notification.
#[derive(Debug, Clone, Copy, PartialEq, Eq, Structural)]
pub enum EventType {
    CommentAdded,
    CommentDeleted,
}

/// What a client may send over its notification socket.
#[derive(Debug, Clone, Copy, PartialEq, Eq, Structural)]
pub enum ClientMessage {
    /// Follow the post.
    Subscribe { post_id: i64 },
    /// Stop following the post.
    Unsubscribe { post_id: i64 },
}

} // verus!
