//! Telling from the names of the running processes whether the Roblox client
//! runs, and noticing when it starts and stops.

use vstd::prelude::*;

use crate::paths::RobloxType;
use crate::text::{chars_of, contains_text, lowercase, text_contains, texts, to_lowercase};

verus! {

/// What the watcher reports to the session.
#[derive(Debug, Clone, Copy, PartialEq, Eq, Structural)]
pub enum WatcherEvent {
    RobloxStarted(RobloxType),
    RobloxClosed,
}

/// The variant of the client that a process of this name belongs to: the
/// studio where the name, in lower case, holds `robloxstudio`; else the
/// player where it holds `robloxplayer`; else none.
pub open spec fn process_type(name: Seq<char>) -> Option<RobloxType> {
    lowercase_type(lowercase(name))
}

/// The variant of the client that a process belongs to whose name, put in
/// lower case, is `lower`.
pub open spec fn lowercase_type(lower: Seq<char>) -> Option<RobloxType> {
    if contains_text(lower, "robloxstudio"@) {
        Some(RobloxType::Studio)
    } else if contains_text(lower, "robloxplayer"@) {
        Some(RobloxType::Player)
    } else {
        None
    }
}

/// The variant of the first process, in the order of `names`, that belongs
/// to the client.
pub open spec fn running_type(names: Seq<Seq<char>>) -> Option<RobloxType>
    decreases names.len(),
{
    if names.len() == 0 {
        None
    } else if process_type(names[0]) is Some {
        process_type(names[0])
    } else {
        running_type(names.drop_first())
    }
}

/// The event that two consecutive snapshots give rise to: a start where the
/// client ran in neither variant and now runs, a close where it ran and no
/// longer does, and nothing otherwise.
pub open spec fn transition(was: Option<RobloxType>, is: Option<RobloxType>) -> Option<
    WatcherEvent,
> {
    match (was, is) {
        (None, Some(roblox_type)) => Some(WatcherEvent::RobloxStarted(roblox_type)),
        (Some(_), None) => Some(WatcherEvent::RobloxClosed),
        _ => None,
    }
}

/// An event is reported only on a change, and a start names the variant
/// that now runs.
pub proof fn lemma_event_only_on_change(was: Option<RobloxType>, is: Option<RobloxType>)
    ensures
        was == is ==> transition(was, is) is None,
        transition(was, is) matches Some(WatcherEvent::RobloxStarted(roblox_type)) ==> is == Some(
            roblox_type,
        ) && was is None,
        transition(was, is) == Some(WatcherEvent::RobloxClosed) ==> was is Some && is is None,
{
}

/// The variant of the client that a process named `name` belongs to, if any.
pub fn classify_process(name: &str) -> (roblox_type: Option<RobloxType>)
    ensures
        roblox_type == process_type(name@),
{
    let lower = to_lowercase(name);
    classify_lowercase(lower.as_str())
}

/// The variant of the client that a process belongs to whose name, put in
/// lower case, is `lower`.
pub fn classify_lowercase(lower: &str) -> (roblox_type: Option<RobloxType>)
    ensures
        roblox_type == lowercase_type(lower@),
{
    let chars = chars_of(lower);
    if text_contains(&chars, &chars_of("robloxstudio")) {
        Some(RobloxType::Studio)
    } else if text_contains(&chars, &chars_of("robloxplayer")) {
        Some(RobloxType::Player)
    } else {
        None
    }
}

/// The variant of the client that runs, judged by the names of the running
/// processes: that of the first process, in the order given, that belongs
/// to the client.
pub fn get_running_roblox_type(names: &Vec<String>) -> (roblox_type: Option<RobloxType>)
    ensures
        roblox_type == running_type(texts(names@)),
{
    let mut i: usize = 0;
    assert(texts(names@).skip(0) == texts(names@));
    while i < names.len()
        invariant
            i <= names.len(),
            running_type(texts(names@)) == running_type(texts(names@).skip(i as int)),
        decreases names.len() - i,
    {
        let found = classify_process(names[i].as_str());
        proof {
            assert(texts(names@).skip(i as int).drop_first() == texts(names@).skip(i + 1));
        }
        if found.is_some() {
            return found;
        }
        i += 1;
    }
    None
}

/// The event that two consecutive snapshots give rise to.
pub fn watcher_event(was: Option<RobloxType>, is: Option<RobloxType>) -> (event: Option<
    WatcherEvent,
>)
    ensures
        event == transition(was, is),
{
    match (was, is) {
        (None, Some(roblox_type)) => Some(WatcherEvent::RobloxStarted(roblox_type)),
        (Some(_), None) => Some(WatcherEvent::RobloxClosed),
        _ => None,
    }
}

/// Remembers what ran at the last poll, to report only changes.
pub struct Watcher {
    roblox_was_running: Option<RobloxType>,
}

impl View for Watcher {
    type V = Option<RobloxType>;

    /// What ran at the last poll.
    closed spec fn view(&self) -> Option<RobloxType> {
        self.roblox_was_running
    }
}

impl Watcher {
    /// A watcher that has seen nothing run yet.
    pub fn new() -> (watcher: Self)
        ensures
            watcher@ is None,
    {
        Watcher { roblox_was_running: None }
    }

    /// What ran at the last poll.
    pub fn was_running(&self) -> (roblox_type: Option<RobloxType>)
        ensures
            roblox_type == self@,
    {
        self.roblox_was_running
    }

    /// One poll: takes the names of the processes that run now, remembers
    /// which variant of the client is among them, and reports the start or
    /// the close of the client if that is what happened since the last poll.
    pub fn poll(&mut self, names: &Vec<String>) -> (event: Option<WatcherEvent>)
        ensures
            final(self)@ == running_type(texts(names@)),
            event == transition(old(self)@, running_type(texts(names@))),
            event is Some ==> final(self)@ != old(self)@,
    {
        let roblox_is_running = get_running_roblox_type(names);
        let event = watcher_event(self.roblox_was_running, roblox_is_running);
        self.roblox_was_running = roblox_is_running;
        event
    }
}

} // verus!
