//! One client's notification socket: which posts it follows, and the
//! heartbeat that keeps it open.

use std::collections::HashSet;

use vstd::prelude::*;

use crate::domain::notification::{ClientMessage, Notification};

verus! {

broadcast use vstd::std_specs::hash::group_hash_axioms;

/// Something that reaches the socket's session.
#[derive(Debug)]
pub enum SessionEvent {
    /// The client sent a request that reads.
    Client(ClientMessage),
    /// The client answered a ping.
    Pong,
    /// The client closed the socket.
    Close,
    /// The client sent something else (text that does not read, binary, a
    /// ping); it is ignored.
    Other,
    /// A notification arrived on the board's broadcast channel.
    Notification(Notification),
    /// The broadcast channel dropped this many notifications for being read
    /// too slowly; reading goes on.
    Lagged(u64),
    /// The broadcast channel closed.
    ChannelClosed,
    /// The heartbeat timer fired.
    Heartbeat,
}

/// What the socket does next.
#[derive(Debug)]
pub enum SessionAction {
    /// Nothing to send.
    Idle,
    /// Send this notification to the client.
    Send(Notification),
    /// Send a ping.
    SendPing,
    /// Close the connection.
    Stop,
}

/// The abstract state of a session: the posts followed, and whether the
/// last ping was answered.
pub ghost struct SessionState {
    pub subscribed: Set<i64>,
    pub pong_received: bool,
}

/// The kind of the next action, and the notification to send when there is
/// one.
pub ghost enum Step {
    Idle,
    Send(Notification),
    SendPing,
    Stop,
}

/// How the session answers `e` in state `s`: the next state and action.
pub open spec fn session_step(s: SessionState, e: SessionEvent) -> (SessionState, Step) {
    match e {
        SessionEvent::Client(ClientMessage::Subscribe { post_id }) => (
            SessionState { subscribed: s.subscribed.insert(post_id), ..s },
            Step::Idle,
        ),
        SessionEvent::Client(ClientMessage::Unsubscribe { post_id }) => (
            SessionState { subscribed: s.subscribed.remove(post_id), ..s },
            Step::Idle,
        ),
        SessionEvent::Pong => (SessionState { pong_received: true, ..s }, Step::Idle),
        SessionEvent::Close => (s, Step::Stop),
        SessionEvent::Other => (s, Step::Idle),
        SessionEvent::Notification(n) => if s.subscribed.contains(n.post_id) {
            (s, Step::Send(n))
        } else {
            (s, Step::Idle)
        },
        SessionEvent::Lagged(_) => (s, Step::Idle),
        SessionEvent::ChannelClosed => (s, Step::Stop),
        SessionEvent::Heartbeat => if s.pong_received {
            (SessionState { pong_received: false, ..s }, Step::SendPing)
        } else {
            (s, Step::Stop)
        },
    }
}

/// The step that an action stands for.
pub open spec fn step_of(a: SessionAction) -> Step {
    match a {
        SessionAction::Idle => Step::Idle,
        SessionAction::Send(n) => Step::Send(n),
        SessionAction::SendPing => Step::SendPing,
        SessionAction::Stop => Step::Stop,
    }
}

/// One client's notification session.
pub struct NotificationSession {
    subscribed_posts: HashSet<i64>,
    pong_received: bool,
}

impl NotificationSession {
    /// The session's abstract state.
    pub closed spec fn state(&self) -> SessionState {
        SessionState { subscribed: self.subscribed_posts@, pong_received: self.pong_received }
    }

    /// A new session: it follows nothing and counts as answered.
    pub fn new() -> (s: Self)
        ensures
            s.state() == (SessionState { subscribed: Set::empty(), pong_received: true }),
    {
        NotificationSession { subscribed_posts: HashSet::new(), pong_received: true }
    }

    /// Answers one event.
    pub fn step(&mut self, event: SessionEvent) -> (a: SessionAction)
        ensures
            (final(self).state(), step_of(a)) == session_step(old(self).state(), event),
    {
        match event {
            SessionEvent::Client(ClientMessage::Subscribe { post_id }) => {
                self.subscribed_posts.insert(post_id);
                SessionAction::Idle
            },
            SessionEvent::Client(ClientMessage::Unsubscribe { post_id }) => {
                self.subscribed_posts.remove(&post_id);
                SessionAction::Idle
            },
            SessionEvent::Pong => {
                self.pong_received = true;
                SessionAction::Idle
            },
            SessionEvent::Close => SessionAction::Stop,
            SessionEvent::Other => SessionAction::Idle,
            SessionEvent::Notification(n) => {
                if self.subscribed_posts.contains(&n.post_id) {
                    SessionAction::Send(n)
                } else {
                    SessionAction::Idle
                }
            },
            SessionEvent::Lagged(_) => SessionAction::Idle,
            SessionEvent::ChannelClosed => SessionAction::Stop,
            SessionEvent::Heartbeat => {
                if self.pong_received {
                    self.pong_received = false;
                    SessionAction::SendPing
                } else {
                    SessionAction::Stop
                }
            },
        }
    }
}

/// A client that follows a post receives its notifications, and one that
/// stopped following it does not; neither changes what it follows.
pub proof fn law_forwarding_follows_subscriptions(s: SessionState, post_id: i64, n: Notification)
    requires
        n.post_id == post_id,
    ensures
        ({
            let (s1, _) = session_step(
                s,
                SessionEvent::Client(ClientMessage::Subscribe { post_id }),
            );
            session_step(s1, SessionEvent::Notification(n)) == (s1, Step::Send(n))
        }),
        ({
            let (s1, _) = session_step(
                s,
                SessionEvent::Client(ClientMessage::Unsubscribe { post_id }),
            );
            session_step(s1, SessionEvent::Notification(n)) == (s1, Step::Idle)
        }),
{
}

/// Following a post adds it to what the session follows and keeps every
/// post followed before; unfollowing a post drops that post alone. Neither
/// sends anything nor touches the heartbeat.
pub proof fn law_subscriptions_accumulate(s: SessionState, p: i64, q: i64)
    ensures
        ({
            let (s1, a) = session_step(s, SessionEvent::Client(ClientMessage::Subscribe { post_id: p }));
            &&& a == Step::Idle
            &&& s1.pong_received == s.pong_received
            &&& (s1.subscribed.contains(q) <==> (q == p || s.subscribed.contains(q)))
        }),
        ({
            let (s1, a) = session_step(
                s,
                SessionEvent::Client(ClientMessage::Unsubscribe { post_id: p }),
            );
            &&& a == Step::Idle
            &&& s1.pong_received == s.pong_received
            &&& (s1.subscribed.contains(q) <==> (q != p && s.subscribed.contains(q)))
        }),
{
}

/// A notification is sent, unchanged, exactly when its post is followed,
/// and otherwise nothing happens; it never changes the session.
pub proof fn law_notification_sent_iff_followed(s: SessionState, n: Notification)
    ensures
        ({
            let (s1, a) = session_step(s, SessionEvent::Notification(n));
            &&& s1 == s
            &&& s.subscribed.contains(n.post_id) ==> a == Step::Send(n)
            &&& !s.subscribed.contains(n.post_id) ==> a == Step::Idle
        }),
{
}

/// After following `p` and then `q`, a notification for `p` is still sent:
/// a later subscription never cancels an earlier one.
pub proof fn law_earlier_subscription_survives(s: SessionState, p: i64, q: i64, n: Notification)
    requires
        n.post_id == p,
    ensures
        ({
            let (s1, _) = session_step(s, SessionEvent::Client(ClientMessage::Subscribe { post_id: p }));
            let (s2, _) = session_step(s1, SessionEvent::Client(ClientMessage::Subscribe { post_id: q }));
            session_step(s2, SessionEvent::Notification(n)).1 == Step::Send(n)
        }),
{
    law_subscriptions_accumulate(s, p, p);
    let (s1, _) = session_step(s, SessionEvent::Client(ClientMessage::Subscribe { post_id: p }));
    law_subscriptions_accumulate(s1, q, p);
    let (s2, _) = session_step(s1, SessionEvent::Client(ClientMessage::Subscribe { post_id: q }));
    law_notification_sent_iff_followed(s2, n);
}

/// A heartbeat pings a client that answered the last ping; a second
/// heartbeat with no answer in between closes the connection, and an answer
/// in between keeps it open.
pub proof fn law_unanswered_ping_closes(s: SessionState)
    requires
        s.pong_received,
    ensures
        ({
            let (s1, a1) = session_step(s, SessionEvent::Heartbeat);
            let (s2, a2) = session_step(s1, SessionEvent::Heartbeat);
            a1 == Step::SendPing && a2 == Step::Stop
        }),
        ({
            let (s1, _) = session_step(s, SessionEvent::Heartbeat);
            let (s2, _) = session_step(s1, SessionEvent::Pong);
            let (s3, a3) = session_step(s2, SessionEvent::Heartbeat);
            a3 == Step::SendPing
        }),
{
}

} // verus!
