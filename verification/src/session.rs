//! The session: what the agent remembers between events, how it reacts to
//! the watcher and to the log, and what it asks the presence service to
//! show.

use vstd::prelude::*;
use vstd::string::StringExecFns;

use crate::log_parser::{is_target, LogFile, LogMonitor, LogTarget, MonitorState};
use crate::paths::RobloxType;
use crate::roblox_api::{GameDetails, GameDetailsView, LookupError};
use crate::text::{decimal, digit, digit_char, option_text, push_char, push_decimal};
use crate::watcher::WatcherEvent;

verus! {

/// The three digits of `n`, which is below 1000, with leading zeros.
pub open spec fn three_digits(n: nat) -> Seq<char> {
    seq![
        digit_char((n / 100) as int),
        digit_char((n / 10 % 10) as int),
        digit_char((n % 10) as int),
    ]
}

/// The decimal numeral of `n` with a comma before every group of three
/// digits, counted from the right.
pub open spec fn grouped(n: nat) -> Seq<char>
    decreases n,
{
    if n < 1000 {
        decimal(n)
    } else {
        grouped(n / 1000) + seq![','] + three_digits(n % 1000)
    }
}

/// `s` with its commas left out.
pub open spec fn without_commas(s: Seq<char>) -> Seq<char>
    decreases s.len(),
{
    if s.len() == 0 {
        s
    } else if s.last() == ',' {
        without_commas(s.drop_last())
    } else {
        without_commas(s.drop_last()).push(s.last())
    }
}

/// A decimal numeral holds no comma.
pub proof fn lemma_decimal_has_no_comma(n: nat)
    ensures
        without_commas(decimal(n)) == decimal(n),
    decreases n,
{
    if n < 10 {
        let none = Seq::<char>::empty();
        assert(without_commas(none) == none);
        assert(decimal(n).drop_last() =~= none);
    } else {
        lemma_decimal_has_no_comma(n / 10);
        assert(decimal(n).drop_last() =~= decimal(n / 10));
    }
}

/// Grouping changes nothing but the commas: without them, the grouped
/// numeral of `n` is its decimal numeral.
pub proof fn lemma_grouped_is_decimal_with_commas(n: nat)
    ensures
        without_commas(grouped(n)) == decimal(n),
    decreases n,
{
    if n < 1000 {
        lemma_decimal_has_no_comma(n);
    } else {
        lemma_grouped_is_decimal_with_commas(n / 1000);
        let low = n % 1000;
        let d2 = digit_char((low / 100) as int);
        let d1 = digit_char((low / 10 % 10) as int);
        let d0 = digit_char((low % 10) as int);
        // The grouped numeral ends in a comma and three digits.
        let s1 = grouped(n / 1000).push(',');
        let s2 = s1.push(d2);
        let s3 = s2.push(d1);
        let s4 = s3.push(d0);
        assert(grouped(n) =~= s4);
        assert(s1.drop_last() =~= grouped(n / 1000));
        assert(s2.drop_last() =~= s1);
        assert(s3.drop_last() =~= s2);
        assert(s4.drop_last() =~= s3);
        assert(without_commas(s1) == decimal(n / 1000));
        assert(without_commas(s2) == without_commas(s1).push(d2));
        assert(without_commas(s3) == without_commas(s2).push(d1));
        assert(without_commas(s4) == without_commas(s3).push(d0));
        // The decimal numeral ends in the same three digits.
        assert((n / 10 / 10) % 10 == low / 100);
        assert(decimal(n / 10 / 10) == decimal(n / 1000).push(d2));
        assert(decimal(n / 10) == decimal(n / 10 / 10).push(d1));
        assert(decimal(n) == decimal(n / 10).push(d0));
    }
}

fn push_grouped(out: &mut String, n: u64)
    ensures
        final(out)@ == old(out)@ + grouped(n as nat),
    decreases n,
{
    if n < 1000 {
        push_decimal(out, n);
    } else {
        push_grouped(out, n / 1000);
        let low = n % 1000;
        push_char(out, ',');
        push_char(out, digit(low / 100));
        push_char(out, digit(low / 10 % 10));
        push_char(out, digit(low % 10));
    }
}

/// The decimal numeral of `n` with thousands separators: `1234567` gives
/// `1,234,567`.
pub fn format_num(n: u64) -> (s: String)
    ensures
        s@ == grouped(n as nat),
{
    let mut s = String::new();
    push_grouped(&mut s, n);
    s
}

/// What the presence service is asked to show.
#[derive(Debug, Clone, PartialEq, Eq)]
pub struct Presence {
    pub details: String,
    pub state: String,
    pub large_image: String,
    pub small_text: Option<String>,
}

/// The content of a `Presence`.
pub struct PresenceView {
    pub details: Seq<char>,
    pub state: Seq<char>,
    pub large_image: Seq<char>,
    pub small_text: Option<Seq<char>>,
}

impl View for Presence {
    type V = PresenceView;

    open spec fn view(&self) -> PresenceView {
        PresenceView {
            details: self.details@,
            state: self.state@,
            large_image: self.large_image@,
            small_text: match self.small_text {
                Some(text) => Some(text@),
                None => None,
            },
        }
    }
}

/// What is shown while a client of this variant runs and no place is
/// known yet.
pub open spec fn loading_view(roblox_type: RobloxType) -> PresenceView {
    match roblox_type {
        RobloxType::Studio => PresenceView {
            details: "Roblox Studio"@,
            state: "Developing"@,
            large_image: "roblox_studio"@,
            small_text: None,
        },
        RobloxType::Player => PresenceView {
            details: "Roblox"@,
            state: "Loading"@,
            large_image: "roblox_logo"@,
            small_text: None,
        },
    }
}

/// What is shown of a game in a client of this variant.
pub open spec fn presence_view(roblox_type: RobloxType, details: GameDetailsView) -> PresenceView {
    match roblox_type {
        RobloxType::Player => PresenceView {
            details: details.name,
            state: "by "@ + details.creator_name,
            large_image: details.thumbnail_url,
            small_text: Some(
                "Playing: "@ + grouped(details.playing as nat) + " | Capacity: "@ + decimal(
                    details.max_players as nat,
                ),
            ),
        },
        RobloxType::Studio => PresenceView {
            details: details.name,
            state: "Editing"@,
            large_image: details.thumbnail_url,
            small_text: Some("Developing"@),
        },
    }
}

/// What is shown while a client of this variant runs and no place is
/// known yet.
pub fn loading_presence(roblox_type: RobloxType) -> (presence: Presence)
    ensures
        presence@ == loading_view(roblox_type),
{
    match roblox_type {
        RobloxType::Studio => Presence {
            details: "Roblox Studio".to_owned(),
            state: "Developing".to_owned(),
            large_image: "roblox_studio".to_owned(),
            small_text: None,
        },
        RobloxType::Player => Presence {
            details: "Roblox".to_owned(),
            state: "Loading".to_owned(),
            large_image: "roblox_logo".to_owned(),
            small_text: None,
        },
    }
}

/// What is shown of a game in a client of this variant.
pub fn game_presence(roblox_type: RobloxType, details: &GameDetails) -> (presence: Presence)
    ensures
        presence@ == presence_view(roblox_type, details@),
{
    match roblox_type {
        RobloxType::Player => {
            let mut state_str = "by ".to_owned();
            state_str.append(details.creator_name.as_str());
            let mut stats_str = "Playing: ".to_owned();
            stats_str.append(format_num(details.playing).as_str());
            stats_str.append(" | Capacity: ");
            push_decimal(&mut stats_str, details.max_players);
            Presence {
                details: details.name.clone(),
                state: state_str,
                large_image: details.thumbnail_url.clone(),
                small_text: Some(stats_str),
            }
        },
        RobloxType::Studio => Presence {
            details: details.name.clone(),
            state: "Editing".to_owned(),
            large_image: details.thumbnail_url.clone(),
            small_text: Some("Developing".to_owned()),
        },
    }
}

/// What the session asks for in reaction to the watcher.
#[derive(Debug, Clone, PartialEq, Eq)]
pub enum Command {
    /// Show this.
    UpdatePresence(Presence),
    /// Show nothing.
    ClearPresence,
}

/// A place whose details are to be looked up, for a client of this
/// variant.
#[derive(Debug, Clone, PartialEq, Eq)]
pub struct LookupRequest {
    pub place_id: String,
    pub roblox_type: RobloxType,
}

/// What the session asks for once a lookup has ended.
#[derive(Debug, Clone, PartialEq, Eq)]
pub enum Feedback {
    /// The lookup succeeded: show this.
    UpdatePresence(Presence),
    /// The lookup failed: tell the user.
    Notify { title: String, message: String },
}

/// What the session asks for once the lookup made for a client of this
/// variant has ended: the game's presence on success, a notice to the user
/// on failure. The session itself is not touched: a failed lookup is not
/// tried again, and the place stays the last one seen.
pub fn lookup_feedback(roblox_type: RobloxType, result: &Result<GameDetails, LookupError>) -> (feedback:
    Feedback)
    ensures
        match *result {
            Ok(details) => feedback matches Feedback::UpdatePresence(presence) && presence@
                == presence_view(roblox_type, details@),
            Err(error) => feedback matches Feedback::Notify { title, message } && title@
                == "Game Details Error"@ && message@ == "Failed to fetch details: "@
                + error.message@,
        },
{
    match result {
        Ok(details) => Feedback::UpdatePresence(game_presence(roblox_type, details)),
        Err(error) => {
            let mut message = "Failed to fetch details: ".to_owned();
            message.append(error.message.as_str());
            Feedback::Notify { title: "Game Details Error".to_owned(), message }
        },
    }
}

/// What a session holds: the variant of the client that runs, if one runs,
/// the place last seen in its log, and the state of the log monitor.
pub struct SessionState {
    pub active: Option<RobloxType>,
    pub last_place_id: Seq<char>,
    pub monitor: MonitorState,
}

impl SessionState {
    /// The state of a session in which no client runs.
    pub open spec fn idle() -> SessionState {
        SessionState {
            active: None,
            last_place_id: Seq::empty(),
            monitor: MonitorState::unbound(),
        }
    }

    /// What holds of every session: while no client runs, no place is
    /// remembered and no log is followed.
    pub open spec fn wf(self) -> bool {
        self.active is None ==> self.last_place_id.len() == 0 && self.monitor
            == MonitorState::unbound()
    }

    /// The state after the watcher reported `event`. A start begins a new
    /// session of the variant named, whatever went before, with no place
    /// seen yet. A close ends the session and lets go of the log.
    pub open spec fn on_event(self, event: WatcherEvent) -> SessionState {
        match event {
            WatcherEvent::RobloxStarted(roblox_type) => SessionState {
                active: Some(roblox_type),
                last_place_id: Seq::empty(),
                monitor: self.monitor,
            },
            WatcherEvent::RobloxClosed => SessionState::idle(),
        }
    }

    /// The state after the latest log file, at `path`, was opened. Outside a
    /// session nothing is followed.
    pub open spec fn log_opened(self, path: Seq<char>) -> SessionState {
        if self.active is Some {
            SessionState {
                active: self.active,
                last_place_id: self.last_place_id,
                monitor: self.monitor.bind(path),
            }
        } else {
            self
        }
    }

    /// Whether a poll that brings up `id` calls for a lookup: a client runs,
    /// and the identifier differs from the one last seen.
    pub open spec fn lookup_due(self, id: Option<Seq<char>>) -> bool {
        &&& self.active is Some
        &&& id matches Some(place_id)
        &&& place_id != self.last_place_id
    }

    /// The state after a poll brought up `id`: an identifier that calls for
    /// a lookup becomes the one last seen, whatever comes of the lookup.
    pub open spec fn identified(self, id: Option<Seq<char>>) -> SessionState {
        if self.lookup_due(id) {
            SessionState {
                active: self.active,
                last_place_id: id->0,
                monitor: self.monitor,
            }
        } else {
            self
        }
    }

    /// The state after `chunk` was read from the followed log. Outside a
    /// session the log is not looked at.
    pub open spec fn on_chunk(self, chunk: Seq<u8>) -> SessionState {
        if self.active is Some {
            SessionState {
                active: self.active,
                last_place_id: self.last_place_id,
                monitor: self.monitor.feed(chunk),
            }.identified(self.monitor.found(chunk))
        } else {
            self
        }
    }

    /// Whether reading `chunk` from the followed log calls for a lookup.
    pub open spec fn chunk_calls_for_lookup(self, chunk: Seq<u8>) -> bool {
        self.lookup_due(self.monitor.found(chunk))
    }
}

/// The session between the watcher, the log and the presence service.
pub struct Session {
    current_roblox_type: Option<RobloxType>,
    last_place_id: String,
    log_monitor: LogMonitor,
}

impl View for Session {
    type V = SessionState;

    closed spec fn view(&self) -> SessionState {
        SessionState {
            active: self.current_roblox_type,
            last_place_id: self.last_place_id@,
            monitor: self.log_monitor@,
        }
    }
}

impl Session {
    /// A session in which no client runs.
    pub fn new() -> (session: Self)
        ensures
            session@ == SessionState::idle(),
    {
        Session {
            current_roblox_type: None,
            last_place_id: String::new(),
            log_monitor: LogMonitor::new(),
        }
    }

    /// The variant of the client that runs, if one runs.
    pub fn current_roblox_type(&self) -> (roblox_type: Option<RobloxType>)
        ensures
            roblox_type == self@.active,
    {
        self.current_roblox_type
    }

    /// The place last seen in the log; empty where none was seen.
    pub fn last_place_id(&self) -> (place_id: &str)
        ensures
            place_id@ == self@.last_place_id,
    {
        self.last_place_id.as_str()
    }

    /// The path of the log file that is followed, if one is.
    pub fn log_path(&self) -> (path: Option<&str>)
        ensures
            match path {
                Some(p) => self@.monitor.bound == Some(p@),
                None => self@.monitor.bound is None,
            },
    {
        self.log_monitor.bound_path()
    }

    /// Whether a client runs: only then is the log polled.
    pub fn is_active(&self) -> (active: bool)
        ensures
            active == (self@.active is Some),
    {
        self.current_roblox_type.is_some()
    }

    /// Reacts to an event of the watcher. On a start the session begins
    /// anew and the loading presence of the variant is to be shown; on a
    /// close the session ends, the log is let go of, and the presence is to
    /// be cleared.
    pub fn on_watcher_event(&mut self, event: WatcherEvent) -> (command: Command)
        ensures
            final(self)@ == old(self)@.on_event(event),
            final(self)@.wf(),
            match event {
                WatcherEvent::RobloxStarted(roblox_type) => command matches Command::UpdatePresence(
                    presence,
                ) && presence@ == loading_view(roblox_type),
                WatcherEvent::RobloxClosed => command == Command::ClearPresence,
            },
    {
        match event {
            WatcherEvent::RobloxStarted(roblox_type) => {
                self.last_place_id = String::new();
                self.current_roblox_type = Some(roblox_type);
                Command::UpdatePresence(loading_presence(roblox_type))
            },
            WatcherEvent::RobloxClosed => {
                self.log_monitor.clear();
                self.last_place_id = String::new();
                self.current_roblox_type = None;
                Command::ClearPresence
            },
        }
    }

    /// Decides, from the listing of the log directory, whether there is
    /// anything to read and whether another file has to be opened first.
    pub fn log_target(&self, files: &Vec<LogFile>) -> (target: LogTarget)
        ensures
            is_target(self@.monitor, files@, target),
    {
        self.log_monitor.target(files)
    }

    /// Takes note that the latest log file, at `path`, was opened: it is
    /// followed from its start. Outside a session nothing happens.
    pub fn on_log_opened(&mut self, path: &str)
        ensures
            final(self)@ == old(self)@.log_opened(path@),
            old(self)@.wf() ==> final(self)@.wf(),
    {
        if self.current_roblox_type.is_some() {
            self.log_monitor.bind(path);
        }
    }

    /// Takes note that a poll of the log brought up `id`. An identifier
    /// other than the one last seen becomes the one last seen, and its
    /// lookup is asked for. Outside a session nothing happens.
    pub fn on_identifier(&mut self, id: Option<String>) -> (request: Option<LookupRequest>)
        ensures
            final(self)@ == old(self)@.identified(option_text(id)),
            old(self)@.wf() ==> final(self)@.wf(),
            match request {
                Some(lookup) => old(self)@.lookup_due(option_text(id)) && Some(lookup.place_id@)
                    == option_text(id) && Some(lookup.roblox_type) == old(self)@.active,
                None => !old(self)@.lookup_due(option_text(id)),
            },
    {
        match (self.current_roblox_type, id) {
            (Some(roblox_type), Some(id)) => {
                if id != self.last_place_id {
                    self.last_place_id = id.clone();
                    Some(LookupRequest { place_id: id, roblox_type })
                } else {
                    None
                }
            },
            _ => None,
        }
    }

    /// Takes in `chunk`, the bytes appended to the followed log since the
    /// last poll. Where they bring up a place other than the one last seen,
    /// that place becomes the one last seen and its lookup is asked for.
    /// Outside a session nothing happens.
    pub fn on_log_chunk(&mut self, chunk: &[u8]) -> (request: Option<LookupRequest>)
        ensures
            final(self)@ == old(self)@.on_chunk(chunk@),
            old(self)@.wf() ==> final(self)@.wf(),
            match request {
                Some(lookup) => old(self)@.chunk_calls_for_lookup(chunk@) && Some(lookup.place_id@)
                    == old(self)@.monitor.found(chunk@) && Some(lookup.roblox_type) == old(
                    self,
                )@.active,
                None => !old(self)@.chunk_calls_for_lookup(chunk@),
            },
    {
        if self.current_roblox_type.is_some() {
            let id = self.log_monitor.check_latest_log(chunk);
            self.on_identifier(id)
        } else {
            None
        }
    }
}

/// Every step keeps a session well formed: while no client runs, no place
/// is remembered and no log is followed.
pub proof fn lemma_steps_keep_wf(
    state: SessionState,
    event: WatcherEvent,
    path: Seq<char>,
    chunk: Seq<u8>,
    id: Option<Seq<char>>,
)
    requires
        state.wf(),
    ensures
        SessionState::idle().wf(),
        state.on_event(event).wf(),
        state.log_opened(path).wf(),
        state.identified(id).wf(),
        state.on_chunk(chunk).wf(),
{
}

/// A start begins a new session whatever went before: the variant is the
/// one named and no place is seen yet.
pub proof fn lemma_start_begins_anew(state: SessionState, roblox_type: RobloxType)
    ensures
        state.on_event(WatcherEvent::RobloxStarted(roblox_type)).active == Some(roblox_type),
        state.on_event(WatcherEvent::RobloxStarted(roblox_type)).last_place_id
            == Seq::<char>::empty(),
{
}

/// Nothing leaks from one session into the next: after a start, a close and
/// another start, the session is of the variant started last, no place is
/// seen yet, and no log is followed.
pub proof fn lemma_no_leak_across_sessions(
    state: SessionState,
    first: RobloxType,
    second: RobloxType,
)
    ensures
        state.on_event(WatcherEvent::RobloxStarted(first)).on_event(
            WatcherEvent::RobloxClosed,
        ).on_event(WatcherEvent::RobloxStarted(second)) == (SessionState {
            active: Some(second),
            last_place_id: Seq::empty(),
            monitor: MonitorState::unbound(),
        }),
{
}

/// The same identifier twice in a row calls for at most one lookup: once a
/// poll has brought it up, a poll that brings it up again calls for none
/// and changes nothing.
pub proof fn lemma_same_identifier_one_lookup(state: SessionState, id: Seq<char>)
    ensures
        !state.identified(Some(id)).lookup_due(Some(id)),
        state.identified(Some(id)).identified(Some(id)) == state.identified(Some(id)),
{
}

/// A failed lookup blocks nothing. The session changes when an identifier
/// is brought up, not when its lookup ends, so after `first` was brought
/// up, whatever came of its lookup, a different identifier calls for a
/// lookup of its own.
pub proof fn lemma_next_identifier_is_looked_up(
    state: SessionState,
    first: Seq<char>,
    second: Seq<char>,
)
    requires
        state.active is Some,
        first != second,
    ensures
        state.identified(Some(first)).last_place_id == first,
        state.identified(Some(first)).lookup_due(Some(second)),
        state.identified(Some(first)).identified(Some(second)).last_place_id == second,
{
}

/// Two polls in a row that bring up the same identifier call for one
/// lookup at most: the second calls for none.
pub proof fn lemma_same_poll_result_one_lookup(
    state: SessionState,
    first: Seq<u8>,
    second: Seq<u8>,
)
    requires
        state.monitor.found(first) is Some,
        state.on_chunk(first).monitor.found(second) == state.monitor.found(first),
    ensures
        !state.on_chunk(first).chunk_calls_for_lookup(second),
{
}

/// A poll that brings up another identifier than the poll before calls for
/// its lookup, whatever came of the lookup before.
pub proof fn lemma_next_poll_result_is_looked_up(
    state: SessionState,
    first: Seq<u8>,
    second: Seq<u8>,
)
    requires
        state.active is Some,
        state.monitor.found(first) is Some,
        state.on_chunk(first).monitor.found(second) is Some,
        state.on_chunk(first).monitor.found(second) != state.monitor.found(first),
    ensures
        state.on_chunk(first).chunk_calls_for_lookup(second),
        state.on_chunk(first).on_chunk(second).last_place_id == state.on_chunk(
            first,
        ).monitor.found(second)->0,
{
}

} // verus!
