//! The connection to the presence service: when a connection is attempted,
//! what is sent over it, and what a failure does to it.

use vstd::prelude::*;

verus! {

/// The identifier under which the agent is known to the presence service.
pub const APP_ID: &'static str = "1442858852730277890";

/// What is sent to the presence service for one update.
#[derive(Debug, Clone, PartialEq, Eq)]
pub struct Activity {
    pub details: String,
    pub state: String,
    pub large_image: String,
    pub large_text: String,
    pub small_image: Option<String>,
    pub small_text: Option<String>,
    pub start: i64,
}

/// The content of an `Activity`.
pub struct ActivityView {
    pub details: Seq<char>,
    pub state: Seq<char>,
    pub large_image: Seq<char>,
    pub large_text: Seq<char>,
    pub small_image: Option<Seq<char>>,
    pub small_text: Option<Seq<char>>,
    pub start: i64,
}

impl View for Activity {
    type V = ActivityView;

    open spec fn view(&self) -> ActivityView {
        ActivityView {
            details: self.details@,
            state: self.state@,
            large_image: self.large_image@,
            large_text: self.large_text@,
            small_image: match self.small_image {
                Some(image) => Some(image@),
                None => None,
            },
            small_text: match self.small_text {
                Some(text) => Some(text@),
                None => None,
            },
            start: self.start,
        }
    }
}

/// The start time as the service takes it: the seconds since the epoch as
/// a signed number of 64 bits, wrapping round where they do not fit.
pub open spec fn start_timestamp(start_time: u64) -> i64 {
    if start_time <= 0x7fff_ffff_ffff_ffff {
        start_time as i64
    } else {
        (start_time - 0x1_0000_0000_0000_0000) as i64
    }
}

/// What is sent for an update. The details double as the text of the large
/// image; the small image is the stock logo and is there only together with
/// a small text.
pub open spec fn activity_view(
    details: Seq<char>,
    state: Seq<char>,
    large_image: Seq<char>,
    small_text: Option<Seq<char>>,
    start_time: u64,
) -> ActivityView {
    ActivityView {
        details,
        state,
        large_image,
        large_text: details,
        small_image: if small_text is Some {
            Some("roblox_logo"@)
        } else {
            None
        },
        small_text,
        start: start_timestamp(start_time),
    }
}

/// What a client holds: whether the service's client could be created,
/// whether it is connected, and when the activity shown last began.
pub struct ClientState {
    pub has_client: bool,
    pub connected: bool,
    pub start_time: u64,
}

impl ClientState {
    /// Whether a connection is to be attempted before anything is sent.
    pub open spec fn needs_connect(self) -> bool {
        self.has_client && !self.connected
    }

    /// The state after the attempt to connect, if one was made, ended.
    pub open spec fn after_connect(self, attempt: Option<bool>) -> ClientState {
        ClientState {
            has_client: self.has_client,
            connected: self.connected || (self.needs_connect() && attempt == Some(true)),
            start_time: self.start_time,
        }
    }

    /// The state after a send ended: a failure resets the connection, so
    /// that the next update connects again.
    pub open spec fn after_send(self, ok: bool) -> ClientState {
        ClientState {
            has_client: self.has_client,
            connected: self.connected && ok,
            start_time: self.start_time,
        }
    }
}

/// The agent's side of the connection to the presence service.
pub struct DiscordClient {
    has_client: bool,
    connected: bool,
    start_time: u64,
}

impl View for DiscordClient {
    type V = ClientState;

    closed spec fn view(&self) -> ClientState {
        ClientState {
            has_client: self.has_client,
            connected: self.connected,
            start_time: self.start_time,
        }
    }
}

impl DiscordClient {
    #[verifier::type_invariant]
    spec fn connected_has_client(self) -> bool {
        self.connected ==> self.has_client
    }

    /// A client that is not connected yet. `has_client` says whether the
    /// service's client could be created, `now` is the time in seconds
    /// since the epoch.
    pub fn new(has_client: bool, now: u64) -> (client: Self)
        ensures
            client@ == (ClientState { has_client, connected: false, start_time: now }),
    {
        DiscordClient { has_client, connected: false, start_time: now }
    }

    /// Whether the client is connected.
    pub fn is_connected(&self) -> (connected: bool)
        ensures
            connected == self@.connected,
    {
        self.connected
    }

    /// When the activity shown last began, in seconds since the epoch.
    pub fn start_time(&self) -> (start_time: u64)
        ensures
            start_time == self@.start_time,
    {
        self.start_time
    }

    /// Whether a connection is to be attempted before anything is sent.
    pub fn needs_connect(&self) -> (needed: bool)
        ensures
            needed == self@.needs_connect(),
    {
        self.has_client && !self.connected
    }

    /// Takes note of how the attempt to connect ended, if one was made, and
    /// says whether the client is connected now. Only a connected client
    /// sends anything.
    pub fn ensure_connected(&mut self, attempt: Option<bool>) -> (connected: bool)
        ensures
            final(self)@ == old(self)@.after_connect(attempt),
            connected == final(self)@.connected,
            connected ==> final(self)@.has_client,
    {
        proof {
            use_type_invariant(&*self);
        }
        if self.connected {
            return true;
        }
        if self.has_client {
            match attempt {
                Some(true) => {
                    self.connected = true;
                    return true;
                },
                _ => {
                    return false;
                },
            }
        }
        false
    }

    /// What is to be sent for an update at the time `now`, in seconds since
    /// the epoch. A connected client restarts its clock and sends the
    /// activity; one that is not connected sends nothing and keeps its
    /// clock.
    pub fn update_presence(
        &mut self,
        now: u64,
        details: &str,
        state: &str,
        large_image: &str,
        small_text: Option<&str>,
    ) -> (activity: Option<Activity>)
        ensures
            final(self)@.has_client == old(self)@.has_client,
            final(self)@.connected == old(self)@.connected,
            final(self)@.start_time == if old(self)@.connected {
                now
            } else {
                old(self)@.start_time
            },
            match activity {
                Some(sent) => old(self)@.connected && sent@ == activity_view(
                    details@,
                    state@,
                    large_image@,
                    match small_text {
                        Some(text) => Some(text@),
                        None => None,
                    },
                    now,
                ),
                None => !old(self)@.connected,
            },
    {
        proof {
            use_type_invariant(&*self);
        }
        if !self.connected {
            return None;
        }
        self.start_time = now;
        let start: i64 = if now <= 0x7fff_ffff_ffff_ffff {
            now as i64
        } else {
            ((now - 0x8000_0000_0000_0000) as i64) + i64::MIN
        };
        let (small_image, small_text) = match small_text {
            Some(text) => (Some("roblox_logo".to_owned()), Some(text.to_owned())),
            None => (None, None),
        };
        Some(
            Activity {
                details: details.to_owned(),
                state: state.to_owned(),
                large_image: large_image.to_owned(),
                large_text: details.to_owned(),
                small_image,
                small_text,
                start,
            },
        )
    }

    /// Whether a request to clear the presence is to be sent: only a
    /// connected client sends one.
    pub fn clear_presence(&self) -> (send: bool)
        ensures
            send == self@.connected,
            send ==> self@.has_client,
    {
        proof {
            use_type_invariant(self);
        }
        self.connected
    }

    /// Takes note of how a send ended, and says whether the connection is
    /// to be closed: a failed send resets the connection, so that the next
    /// update connects again.
    pub fn send_finished(&mut self, ok: bool) -> (close: bool)
        ensures
            final(self)@ == old(self)@.after_send(ok),
            close == (old(self)@.connected && !ok),
    {
        if self.connected && !ok {
            self.connected = false;
            true
        } else {
            false
        }
    }

    /// Ends the connection, and says whether there is a client to close.
    pub fn close(&mut self) -> (has_client: bool)
        ensures
            final(self)@ == (ClientState {
                has_client: old(self)@.has_client,
                connected: false,
                start_time: old(self)@.start_time,
            }),
            has_client == old(self)@.has_client,
    {
        self.connected = false;
        self.has_client
    }
}

/// A failed send does not stay: the next update asks for a new connection,
/// and once that is made, the update is sent.
pub proof fn lemma_failed_send_reconnects(state: ClientState)
    requires
        state.connected ==> state.has_client,
        state.connected,
    ensures
        state.after_send(false).needs_connect(),
        state.after_send(false).after_connect(Some(true)).connected,
        !state.after_send(false).after_connect(Some(false)).connected,
        state.after_send(true) == state,
{
}

} // verus!
