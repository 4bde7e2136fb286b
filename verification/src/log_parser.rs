//! Following the client's log: which line names a place, how appended bytes
//! become lines, and which file of the log directory is followed.

use vstd::prelude::*;
use vstd::string::StringExecFns;

use crate::text::{
    chars_of, decode_lossy, lossy_text, option_text, string_of, texts, trim, trim_bounds,
};

verus! {

/// What capture group 1 of the regular expression `pattern` holds in the
/// leftmost match of `pattern` in `line`, as the `regex` crate finds it.
/// Nothing where `pattern` is no valid expression, where it matches nowhere
/// in `line`, or where the match leaves group 1 out.
pub uninterp spec fn first_group(pattern: Seq<char>, line: Seq<char>) -> Option<Seq<char>>;

/// Calls `regex::Regex::new` on `pattern`, then `Regex::captures` on `line`
/// and `Captures::get(1)` on what it finds. Trusted: the text handed back is
/// `first_group` of the two arguments. A pattern that does not compile gives
/// nothing.
#[verifier::external_body]
fn capture_first_group(pattern: &str, line: &str) -> (found: Option<String>)
    ensures
        option_text(found) == first_group(pattern@, line@),
{
    match regex::Regex::new(pattern) {
        Ok(re) => re.captures(line).and_then(|caps| caps.get(1)).map(|m| m.as_str().to_string()),
        Err(_) => None,
    }
}

/// The number of extraction rules.
pub const RULE_COUNT: usize = 7;

/// The extraction rules, in priority order. Each is a regular expression
/// whose group 1 holds the place's decimal identifier.
pub open spec fn rule_patterns() -> Seq<Seq<char>> {
    seq![
        r"Launching experience at (\d+)"@,
        r"! Joining game .* place (\d+)"@,
        r"Joining game .* place (\d+)"@,
        r"placeid:(\d+)"@,
        r"placeId:(\d+)"@,
        r"PlaceId=(\d+)"@,
        r"universeId:(\d+)"@,
    ]
}

/// What rule number `rule` captures in `line`.
pub open spec fn rule_capture(rule: int, line: Seq<char>) -> Option<Seq<char>> {
    first_group(rule_patterns()[rule], line)
}

/// What the first of the rules `from..RULE_COUNT` that captures anything in
/// `line` captures there.
pub open spec fn place_id_from(line: Seq<char>, from: int) -> Option<Seq<char>>
    decreases RULE_COUNT - from,
{
    if from < 0 || from >= RULE_COUNT {
        None
    } else if rule_capture(from, line) is Some {
        rule_capture(from, line)
    } else {
        place_id_from(line, from + 1)
    }
}

/// The place identifier that `line` names: what the first rule, in priority
/// order, that captures anything in `line` captures there.
pub open spec fn place_id(line: Seq<char>) -> Option<Seq<char>> {
    place_id_from(line, 0)
}

/// A line in which no rule from `from` on captures anything names no place.
pub proof fn lemma_no_rule_no_place_id(line: Seq<char>, from: int)
    requires
        0 <= from,
        forall|rule: int| from <= rule < RULE_COUNT ==> rule_capture(rule, line) is None,
    ensures
        place_id_from(line, from) is None,
    decreases RULE_COUNT - from,
{
    if from < RULE_COUNT {
        lemma_no_rule_no_place_id(line, from + 1);
    }
}

/// The first rule wins: where `rule` captures something in `line` and no
/// rule of `from..rule` does, the search from `from` gives what `rule`
/// captured.
pub proof fn lemma_first_rule_wins(line: Seq<char>, from: int, rule: int)
    requires
        0 <= from <= rule < RULE_COUNT,
        rule_capture(rule, line) is Some,
        forall|earlier: int| from <= earlier < rule ==> rule_capture(earlier, line) is None,
    ensures
        place_id_from(line, from) == rule_capture(rule, line),
    decreases rule - from,
{
    if from < rule {
        lemma_first_rule_wins(line, from + 1, rule);
    }
}

fn rule_pattern(rule: usize) -> (pattern: &'static str)
    requires
        rule < RULE_COUNT,
    ensures
        pattern@ == rule_patterns()[rule as int],
{
    if rule == 0 {
        r"Launching experience at (\d+)"
    } else if rule == 1 {
        r"! Joining game .* place (\d+)"
    } else if rule == 2 {
        r"Joining game .* place (\d+)"
    } else if rule == 3 {
        r"placeid:(\d+)"
    } else if rule == 4 {
        r"placeId:(\d+)"
    } else if rule == 5 {
        r"PlaceId=(\d+)"
    } else {
        r"universeId:(\d+)"
    }
}

/// What follows from trying the rules in order: a line in which no rule
/// captures anything names no place, and a line in which exactly one rule
/// captures something names what that rule captured.
pub proof fn lemma_place_id_by_rules(line: Seq<char>)
    ensures
        (forall|rule: int| 0 <= rule < RULE_COUNT ==> rule_capture(rule, line) is None)
            ==> place_id(line) is None,
        forall|rule: int|
            0 <= rule < RULE_COUNT && #[trigger] rule_capture(rule, line) is Some && (forall|
                other: int,
            |
                0 <= other < RULE_COUNT && other != rule ==> rule_capture(other, line) is None)
                ==> place_id(line) == rule_capture(rule, line),
{
    if forall|rule: int| 0 <= rule < RULE_COUNT ==> rule_capture(rule, line) is None {
        lemma_no_rule_no_place_id(line, 0);
    }
    assert forall|rule: int|
        0 <= rule < RULE_COUNT && #[trigger] rule_capture(rule, line) is Some && (forall|
            other: int,
        |
            0 <= other < RULE_COUNT && other != rule ==> rule_capture(other, line) is None)
            implies place_id(line) == rule_capture(rule, line) by {
        lemma_first_rule_wins(line, 0, rule);
    }
}

/// The place identifier that `line` names, if it names one. The rules are
/// tried in priority order and the first that captures anything decides.
pub fn get_place_id_from_line(line: &str) -> (id: Option<String>)
    ensures
        option_text(id) == place_id(line@),
        (forall|rule: int| 0 <= rule < RULE_COUNT ==> rule_capture(rule, line@) is None)
            ==> id is None,
        forall|rule: int|
            0 <= rule < RULE_COUNT && #[trigger] rule_capture(rule, line@) is Some && (forall|
                other: int,
            |
                0 <= other < RULE_COUNT && other != rule ==> rule_capture(other, line@) is None)
                ==> option_text(id) == rule_capture(rule, line@),
{
    proof {
        lemma_place_id_by_rules(line@);
    }
    let mut rule: usize = 0;
    while rule < RULE_COUNT
        invariant
            rule <= RULE_COUNT,
            place_id(line@) == place_id_from(line@, rule as int),
        decreases RULE_COUNT - rule,
    {
        let found = capture_first_group(rule_pattern(rule), line);
        if found.is_some() {
            return found;
        }
        rule += 1;
    }
    None
}

/// What is left of `text` after its last line break: the line that is not
/// complete yet.
pub open spec fn remainder(text: Seq<char>) -> Seq<char>
    decreases text.len(),
{
    if text.len() == 0 {
        text
    } else if text.last() == '\n' {
        Seq::empty()
    } else {
        remainder(text.drop_last()).push(text.last())
    }
}

/// The complete lines of `text` as they stand in it, in order: each run of
/// characters up to and including a line break.
pub open spec fn raw_lines(text: Seq<char>) -> Seq<Seq<char>>
    decreases text.len(),
{
    if text.len() == 0 {
        Seq::empty()
    } else if text.last() == '\n' {
        raw_lines(text.drop_last()).push(remainder(text.drop_last()).push('\n'))
    } else {
        raw_lines(text.drop_last())
    }
}

/// The complete lines of `text`, in order, each trimmed: the whitespace
/// around it is removed, and with it the line break.
pub open spec fn complete_lines(text: Seq<char>) -> Seq<Seq<char>> {
    raw_lines(text).map_values(|line: Seq<char>| trim(line))
}

/// The text a reader holds once it has taken in `chunk`: what was pending,
/// followed by the chunk's text. An empty chunk adds nothing.
pub open spec fn buffered(pending: Seq<char>, chunk: Seq<u8>) -> Seq<char> {
    if chunk.len() == 0 {
        pending
    } else {
        pending + lossy_text(chunk)
    }
}

/// Whether `line` is one line with its line break: it ends in a line break
/// and holds no other.
pub open spec fn is_line(line: Seq<char>) -> bool {
    &&& line.len() > 0
    &&& line.last() == '\n'
    &&& !line.drop_last().contains('\n')
}

/// The lines put one after the other.
pub open spec fn joined_lines(lines: Seq<Seq<char>>) -> Seq<char>
    decreases lines.len(),
{
    if lines.len() == 0 {
        Seq::empty()
    } else {
        joined_lines(lines.drop_last()) + lines.last()
    }
}

/// What is left after the last line break holds no line break.
pub proof fn lemma_remainder_has_no_line_break(text: Seq<char>)
    ensures
        !remainder(text).contains('\n'),
    decreases text.len(),
{
    if text.len() > 0 && text.last() != '\n' {
        lemma_remainder_has_no_line_break(text.drop_last());
    }
}

/// Text without a line break holds no complete line and is all pending.
pub proof fn lemma_no_line_break_no_line(text: Seq<char>)
    requires
        !text.contains('\n'),
    ensures
        raw_lines(text) == Seq::<Seq<char>>::empty(),
        complete_lines(text) == Seq::<Seq<char>>::empty(),
        remainder(text) == text,
    decreases text.len(),
{
    if text.len() > 0 {
        lemma_no_line_break_no_line(text.drop_last());
    }
}

/// The lines and what is left make up the text: nothing is lost, nothing is
/// added, every line is one line, and what is left holds no line break.
pub proof fn lemma_lines_make_up_text(text: Seq<char>)
    ensures
        joined_lines(raw_lines(text)) + remainder(text) == text,
        forall|i: int| 0 <= i < raw_lines(text).len() ==> is_line(#[trigger] raw_lines(text)[i]),
        !remainder(text).contains('\n'),
        complete_lines(text).len() == raw_lines(text).len(),
    decreases text.len(),
{
    if text.len() > 0 {
        let before = text.drop_last();
        lemma_lines_make_up_text(before);
        assert(before.push(text.last()) == text);
        if text.last() == '\n' {
            assert(raw_lines(text).drop_last() == raw_lines(before));
        }
    }
}

/// Reading in pieces is reading at once: the lines of a text followed by
/// the lines of what was left together with more text are the lines of
/// both texts in one, and what is left in the end is the same.
pub proof fn lemma_reading_in_pieces(first: Seq<char>, second: Seq<char>)
    ensures
        raw_lines(first + second) == raw_lines(first) + raw_lines(remainder(first) + second),
        complete_lines(first + second) == complete_lines(first) + complete_lines(
            remainder(first) + second,
        ),
        remainder(first + second) == remainder(remainder(first) + second),
    decreases second.len(),
{
    let rest = remainder(first);
    if second.len() == 0 {
        lemma_remainder_has_no_line_break(first);
        lemma_no_line_break_no_line(rest);
    } else {
        let shorter = second.drop_last();
        lemma_reading_in_pieces(first, shorter);
        assert((first + second).drop_last() =~= first + shorter);
        assert((rest + second).drop_last() =~= rest + shorter);
    }
}

/// The part of a log file's text that has been read but not yet reported:
/// the characters after the last line break.
pub struct LogReader {
    buffer: String,
}

impl View for LogReader {
    type V = Seq<char>;

    /// The pending text: the line that is not complete yet.
    closed spec fn view(&self) -> Seq<char> {
        self.buffer@
    }
}

impl LogReader {
    #[verifier::type_invariant]
    spec fn holds_no_line_break(self) -> bool {
        !self.buffer@.contains('\n')
    }

    /// A reader that has seen nothing yet.
    pub fn new() -> (reader: Self)
        ensures
            reader@ == Seq::<char>::empty(),
    {
        LogReader { buffer: String::new() }
    }

    /// The pending text: what was read after the last line break.
    pub fn pending(&self) -> (text: &str)
        ensures
            text@ == self@,
    {
        self.buffer.as_str()
    }

    /// Takes in `text`, which was appended to the file since the last call,
    /// and hands out the lines that are now complete, trimmed and in order.
    /// What follows the last line break stays pending for the next call.
    pub fn push_text(&mut self, text: &str) -> (lines: Vec<String>)
        ensures
            texts(lines@) == complete_lines(old(self)@ + text@),
            final(self)@ == remainder(old(self)@ + text@),
    {
        let mut all = self.buffer.clone();
        all.append(text);
        let chars = chars_of(all.as_str());
        let mut lines: Vec<String> = Vec::new();
        let mut start: usize = 0;
        let mut i: usize = 0;
        while i < chars.len()
            invariant
                start <= i <= chars.len(),
                texts(lines@) == complete_lines(chars@.take(i as int)),
                chars@.subrange(start as int, i as int) == remainder(chars@.take(i as int)),
            decreases chars.len() - i,
        {
            proof {
                let next = chars@.take(i + 1);
                assert(next.drop_last() == chars@.take(i as int));
                assert(chars@.subrange(start as int, i + 1) == chars@.subrange(
                    start as int,
                    i as int,
                ).push(chars@[i as int]));
            }
            if chars[i] == '\n' {
                let (a, b) = trim_bounds(&chars, start, i + 1);
                let line = string_of(&chars, a, b);
                proof {
                    let full = chars@.subrange(start as int, i + 1);
                    assert(complete_lines(chars@.take(i + 1)) =~= complete_lines(
                        chars@.take(i as int),
                    ).push(trim(full)));
                }
                lines.push(line);
                start = i + 1;
            }
            i += 1;
        }
        proof {
            assert(chars@.take(chars@.len() as int) == chars@);
            lemma_remainder_has_no_line_break(chars@);
        }
        self.buffer = string_of(&chars, start, chars.len());
        lines
    }

    /// Takes in `chunk`, the bytes appended to the file since the last call,
    /// and hands out the lines that are now complete, trimmed and in order.
    /// Bytes that are no valid UTF-8 are replaced, never refused. What
    /// follows the last line break stays pending for the next call. Without
    /// new bytes there is no new line and nothing changes.
    pub fn get_new_lines(&mut self, chunk: &[u8]) -> (lines: Vec<String>)
        ensures
            texts(lines@) == complete_lines(buffered(old(self)@, chunk@)),
            final(self)@ == remainder(buffered(old(self)@, chunk@)),
            chunk@.len() == 0 ==> lines@.len() == 0 && final(self)@ == old(self)@,
    {
        if chunk.len() == 0 {
            let lines: Vec<String> = Vec::new();
            proof {
                use_type_invariant(&*self);
                lemma_no_line_break_no_line(self.buffer@);
            }
            return lines;
        }
        let decoded = decode_lossy(chunk);
        self.push_text(decoded.as_str())
    }
}

/// The identifier named by the first of `lines` that names one.
pub open spec fn first_place_id(lines: Seq<Seq<char>>) -> Option<Seq<char>>
    decreases lines.len(),
{
    if lines.len() == 0 {
        None
    } else if place_id(lines[0]) is Some {
        place_id(lines[0])
    } else {
        first_place_id(lines.drop_first())
    }
}

/// The identifier named by the first of `lines` that names one. Later lines
/// of the batch are not looked at.
pub fn first_place_id_in(lines: &Vec<String>) -> (id: Option<String>)
    ensures
        option_text(id) == first_place_id(texts(lines@)),
{
    let mut i: usize = 0;
    assert(texts(lines@).skip(0) == texts(lines@));
    while i < lines.len()
        invariant
            i <= lines.len(),
            first_place_id(texts(lines@)) == first_place_id(texts(lines@).skip(i as int)),
        decreases lines.len() - i,
    {
        let id = get_place_id_from_line(lines[i].as_str());
        proof {
            assert(texts(lines@).skip(i as int).drop_first() == texts(lines@).skip(i + 1));
        }
        if id.is_some() {
            return id;
        }
        i += 1;
    }
    None
}

/// A file of the log directory, as the directory listing shows it.
pub struct LogFile {
    /// The file's path.
    pub path: String,
    /// The extension of the file's name, without the dot, if it has one.
    pub extension: Option<String>,
    /// When the file was last modified, in nanoseconds since the Unix epoch.
    pub modified: i128,
}

impl LogFile {
    /// Whether the file's name marks it as a log: its extension is `log`.
    pub open spec fn is_log(&self) -> bool {
        self.extension matches Some(extension) && extension@ == "log"@
    }

    /// Whether the file's name marks it as a log.
    pub fn has_log_extension(&self) -> (b: bool)
        ensures
            b == self.is_log(),
    {
        match &self.extension {
            Some(extension) => {
                let log = "log".to_owned();
                *extension == log
            },
            None => false,
        }
    }
}

/// Whether `files[k]` is the log to follow: a log file that was modified as
/// late as any other, and later than every log file listed after it.
pub open spec fn is_latest_log(files: Seq<LogFile>, k: int) -> bool {
    &&& 0 <= k < files.len()
    &&& files[k].is_log()
    &&& forall|j: int|
        0 <= j < files.len() && (#[trigger] files[j]).is_log() ==> files[j].modified
            <= files[k].modified
    &&& forall|j: int|
        k < j < files.len() && (#[trigger] files[j]).is_log() ==> files[j].modified
            < files[k].modified
}

/// A listing has at most one log to follow.
pub proof fn lemma_latest_log_is_unique(files: Seq<LogFile>, a: int, b: int)
    requires
        is_latest_log(files, a),
        is_latest_log(files, b),
    ensures
        a == b,
{
    if a < b {
        assert(files[b].modified < files[a].modified);
    } else if b < a {
        assert(files[a].modified < files[b].modified);
    }
}

/// The index of the log to follow among `files`: the log file modified
/// last, and of several modified at the same time the one listed last.
/// Nothing where the listing holds no log file.
pub fn get_latest_log_path(files: &Vec<LogFile>) -> (latest: Option<usize>)
    ensures
        match latest {
            Some(k) => is_latest_log(files@, k as int),
            None => forall|j: int| 0 <= j < files.len() ==> !(#[trigger] files[j]).is_log(),
        },
{
    let mut latest: Option<usize> = None;
    let mut i: usize = 0;
    while i < files.len()
        invariant
            i <= files.len(),
            match latest {
                Some(k) => is_latest_log(files@.take(i as int), k as int),
                None => forall|j: int| 0 <= j < i ==> !(#[trigger] files[j]).is_log(),
            },
        decreases files.len() - i,
    {
        if files[i].has_log_extension() {
            match latest {
                Some(k) => {
                    if files[i].modified >= files[k].modified {
                        latest = Some(i);
                    }
                },
                None => {
                    latest = Some(i);
                },
            }
        }
        i += 1;
    }
    assert(files@.take(files@.len() as int) == files@);
    latest
}

/// What a log monitor holds: the path of the file it follows, if it follows
/// one, and the text of that file that is still pending.
pub struct MonitorState {
    pub bound: Option<Seq<char>>,
    pub pending: Seq<char>,
}

impl MonitorState {
    /// The state of a monitor that follows no file.
    pub open spec fn unbound() -> MonitorState {
        MonitorState { bound: None, pending: Seq::empty() }
    }

    /// The state after a switch to the file at `path`: what was pending is
    /// gone.
    pub open spec fn bind(self, path: Seq<char>) -> MonitorState {
        MonitorState { bound: Some(path), pending: Seq::empty() }
    }

    /// The state after `chunk` was read from the followed file.
    pub open spec fn feed(self, chunk: Seq<u8>) -> MonitorState {
        if self.bound is Some {
            MonitorState { bound: self.bound, pending: remainder(buffered(self.pending, chunk)) }
        } else {
            self
        }
    }

    /// The identifier that reading `chunk` from the followed file brings up:
    /// the one named by the first of the newly complete lines that names one.
    pub open spec fn found(self, chunk: Seq<u8>) -> Option<Seq<char>> {
        if self.bound is Some {
            first_place_id(complete_lines(buffered(self.pending, chunk)))
        } else {
            None
        }
    }
}

/// What a poll has to do about the file the monitor follows, given the
/// directory listing.
#[derive(Debug, Clone, Copy, PartialEq, Eq, Structural)]
pub enum LogTarget {
    /// The listing holds no log file: there is nothing to read.
    Missing,
    /// The monitor already follows the latest log file.
    Current,
    /// The latest log file, at this index of the listing, is not the one
    /// the monitor follows: it has to be opened.
    Switch(usize),
}

/// Whether `target` is the right decision for a monitor in `state` that is
/// shown the listing `files`.
pub open spec fn is_target(state: MonitorState, files: Seq<LogFile>, target: LogTarget) -> bool {
    match target {
        LogTarget::Missing => forall|j: int|
            0 <= j < files.len() ==> !(#[trigger] files[j]).is_log(),
        LogTarget::Current => exists|k: int|
            #[trigger] is_latest_log(files, k) && state.bound == Some(files[k].path@),
        LogTarget::Switch(k) => is_latest_log(files, k as int) && state.bound != Some(
            files[k as int].path@,
        ),
    }
}

/// Follows the latest log file of the log directory and reports the place
/// identifiers that appear in it.
pub struct LogMonitor {
    reader: Option<(String, LogReader)>,
}

impl View for LogMonitor {
    type V = MonitorState;

    closed spec fn view(&self) -> MonitorState {
        match self.reader {
            Some((path, reader)) => MonitorState { bound: Some(path@), pending: reader@ },
            None => MonitorState::unbound(),
        }
    }
}

impl LogMonitor {
    /// A monitor that follows no file yet.
    pub fn new() -> (monitor: Self)
        ensures
            monitor@ == MonitorState::unbound(),
    {
        LogMonitor { reader: None }
    }

    /// The path of the file that is followed, if one is.
    pub fn bound_path(&self) -> (path: Option<&str>)
        ensures
            match path {
                Some(p) => self@.bound == Some(p@),
                None => self@.bound is None,
            },
    {
        match &self.reader {
            Some((path, _)) => Some(path.as_str()),
            None => None,
        }
    }

    /// Decides, from the listing of the log directory, whether there is
    /// anything to read and whether another file has to be opened first.
    pub fn target(&self, files: &Vec<LogFile>) -> (target: LogTarget)
        ensures
            is_target(self@, files@, target),
    {
        match get_latest_log_path(files) {
            Some(k) => {
                let follows = match &self.reader {
                    Some((path, _)) => *path == files[k].path,
                    None => false,
                };
                if follows {
                    LogTarget::Current
                } else {
                    LogTarget::Switch(k)
                }
            },
            None => LogTarget::Missing,
        }
    }

    /// Switches to the file at `path`, which was just opened: the monitor
    /// follows it from its start, and what was pending of the file followed
    /// before is discarded.
    pub fn bind(&mut self, path: &str)
        ensures
            final(self)@ == old(self)@.bind(path@),
    {
        self.reader = Some((path.to_owned(), LogReader::new()));
    }

    /// Takes in `chunk`, the bytes appended to the followed file since the
    /// last poll, and reports the first place identifier named in the lines
    /// that are now complete. A monitor that follows no file reports nothing.
    pub fn check_latest_log(&mut self, chunk: &[u8]) -> (id: Option<String>)
        ensures
            final(self)@ == old(self)@.feed(chunk@),
            option_text(id) == old(self)@.found(chunk@),
    {
        match &mut self.reader {
            Some((_, reader)) => {
                let lines = reader.get_new_lines(chunk);
                first_place_id_in(&lines)
            },
            None => None,
        }
    }

    /// Stops following any file and discards what was pending.
    pub fn clear(&mut self)
        ensures
            final(self)@ == MonitorState::unbound(),
    {
        self.reader = None;
    }
}

/// A switch discards what was pending of the file followed before: what is
/// found and kept after it depends on the new file's bytes alone.
pub proof fn lemma_switch_discards_pending(
    before: MonitorState,
    other: MonitorState,
    path: Seq<char>,
    chunk: Seq<u8>,
)
    ensures
        before.bind(path).pending == Seq::<char>::empty(),
        before.bind(path).found(chunk) == other.bind(path).found(chunk),
        before.bind(path).feed(chunk) == other.bind(path).feed(chunk),
        before.bind(path).found(chunk) == MonitorState::unbound().bind(path).found(chunk),
{
}

} // verus!
