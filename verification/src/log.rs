//! The application log: its levels, which of them are shown, and its bound.

use std::collections::VecDeque;

use vstd::prelude::*;
use vstd::string::*;

use crate::seqs::lemma_filter_push;
use crate::text::{
    blank,
    blank_texts_are_white_space,
    decimal,
    decimal_string,
    is_blank,
    is_white_space,
};

verus! {

/// How many lines the log keeps.
pub const MAX_LOG_LINES: usize = 20_000;

/// How important a log line is.
#[derive(Debug, Clone, Copy, PartialEq, Eq, Structural)]
pub enum LogLevel {
    Error,
    Warn,
    Info,
    Debug,
    Trace,
}

impl LogLevel {
    /// The name that stands in front of a line.
    pub open spec fn label(self) -> Seq<char> {
        match self {
            LogLevel::Error => "ERROR"@,
            LogLevel::Warn => "WARN"@,
            LogLevel::Info => "INFO"@,
            LogLevel::Debug => "DEBUG"@,
            LogLevel::Trace => "TRACE"@,
        }
    }

    /// The name that stands in front of a line.
    pub fn as_str(self) -> (r: &'static str)
        ensures
            r@ == self.label(),
    {
        match self {
            LogLevel::Error => "ERROR",
            LogLevel::Warn => "WARN",
            LogLevel::Info => "INFO",
            LogLevel::Debug => "DEBUG",
            LogLevel::Trace => "TRACE",
        }
    }
}

/// One line of the log.
#[derive(Debug, Clone, PartialEq, Eq)]
pub struct LogEntry {
    pub level: LogLevel,
    pub message: String,
}

/// The mathematical value of a [`LogEntry`].
#[verifier::ext_equal]
pub struct LogEntryView {
    pub level: LogLevel,
    pub message: Seq<char>,
}

impl View for LogEntry {
    type V = LogEntryView;

    open spec fn view(&self) -> LogEntryView {
        LogEntryView { level: self.level, message: self.message@ }
    }
}

/// The lines of a log, oldest first.
pub open spec fn entries(logs: Seq<LogEntry>) -> Seq<LogEntryView> {
    logs.map_values(|e: LogEntry| e@)
}

/// The line that is logged for `message`: a blank message is replaced.
pub open spec fn log_line(level: LogLevel, message: Seq<char>) -> LogEntryView {
    LogEntryView {
        level,
        message: if is_blank(message) {
            "<empty>"@
        } else {
            message
        },
    }
}

/// The last `n` elements of `s`, or all of them if there are fewer.
pub open spec fn last_of<T>(s: Seq<T>, n: nat) -> Seq<T> {
    if s.len() > n {
        s.skip(s.len() - n)
    } else {
        s
    }
}

/// The log after `message` was added: the newest lines, up to the bound.
pub open spec fn log_after(
    logs: Seq<LogEntryView>,
    level: LogLevel,
    message: Seq<char>,
) -> Seq<LogEntryView> {
    last_of(logs.push(log_line(level, message)), MAX_LOG_LINES as nat)
}

/// Adds a line to the log, and drops the oldest ones beyond the bound.
pub fn append_log(logs: &mut VecDeque<LogEntry>, level: LogLevel, message: String)
    ensures
        entries(final(logs)@) == log_after(entries(old(logs)@), level, message@),
{
    let message = if blank(message.as_str()) {
        "<empty>".to_string()
    } else {
        message
    };
    let ghost before = logs@;
    let entry = LogEntry { level, message };
    logs.push_back(entry);
    let ghost all = logs@;
    assert(entries(all) =~= entries(before).push(entry@));
    while logs.len() > MAX_LOG_LINES
        invariant
            logs@.len() <= all.len(),
            logs@ == all.skip(all.len() - logs@.len()),
            all.len() >= MAX_LOG_LINES ==> logs@.len() >= MAX_LOG_LINES,
            all.len() < MAX_LOG_LINES ==> logs@.len() == all.len(),
        decreases logs@.len(),
    {
        logs.pop_front();
    }
    assert(entries(logs@) =~= last_of(entries(all), MAX_LOG_LINES as nat));
}

/// Which levels are shown.
#[derive(Debug, Clone, Copy, PartialEq, Eq, Structural)]
pub struct LogFilters {
    pub error: bool,
    pub warn: bool,
    pub info: bool,
    pub debug: bool,
    pub trace: bool,
}

/// The filters that show errors, warnings and information, and the two finer
/// levels as given.
pub open spec fn verbosity(debug: bool, trace: bool) -> LogFilters {
    LogFilters { error: true, warn: true, info: true, debug, trace }
}

impl Default for LogFilters {
    fn default() -> (r: Self)
        ensures
            r == verbosity(false, false),
    {
        LogFilters { error: true, warn: true, info: true, debug: false, trace: false }
    }
}

impl LogFilters {
    /// Whether lines of `level` are shown.
    pub open spec fn shows(self, level: LogLevel) -> bool {
        match level {
            LogLevel::Error => self.error,
            LogLevel::Warn => self.warn,
            LogLevel::Info => self.info,
            LogLevel::Debug => self.debug,
            LogLevel::Trace => self.trace,
        }
    }

    /// Whether lines of `level` are shown.
    pub fn includes(&self, level: LogLevel) -> (r: bool)
        ensures
            r == self.shows(level),
    {
        match level {
            LogLevel::Error => self.error,
            LogLevel::Warn => self.warn,
            LogLevel::Info => self.info,
            LogLevel::Debug => self.debug,
            LogLevel::Trace => self.trace,
        }
    }

    /// Shows errors, warnings and information.
    pub fn set_verbosity_low(&mut self)
        ensures
            *final(self) == verbosity(false, false),
    {
        self.error = true;
        self.warn = true;
        self.info = true;
        self.debug = false;
        self.trace = false;
    }

    /// Shows everything but traces.
    pub fn set_verbosity_medium(&mut self)
        ensures
            *final(self) == verbosity(true, false),
    {
        self.error = true;
        self.warn = true;
        self.info = true;
        self.debug = true;
        self.trace = false;
    }

    /// Shows everything.
    pub fn set_verbosity_high(&mut self)
        ensures
            *final(self) == verbosity(true, true),
    {
        self.error = true;
        self.warn = true;
        self.info = true;
        self.debug = true;
        self.trace = true;
    }
}

/// A line as it is displayed: its level in brackets, then the message.
pub open spec fn displayed(entry: LogEntryView) -> (LogLevel, Seq<char>) {
    (entry.level, "["@ + entry.level.label() + "] "@ + entry.message)
}

/// The lines that `filters` show, as they are displayed, oldest first.
pub open spec fn displayed_log(logs: Seq<LogEntryView>, filters: LogFilters) -> Seq<
    (LogLevel, Seq<char>),
> {
    logs.filter(|e: LogEntryView| filters.shows(e.level)).map_values(
        |e: LogEntryView| displayed(e),
    )
}

/// The levels and texts of displayed lines.
pub open spec fn line_texts(lines: Seq<(LogLevel, String)>) -> Seq<(LogLevel, Seq<char>)> {
    lines.map_values(|l: (LogLevel, String)| (l.0, l.1@))
}

/// The lines to display, each with its level.
pub fn visible_lines(logs: &VecDeque<LogEntry>, filters: &LogFilters) -> (r: Vec<
    (LogLevel, String),
>)
    ensures
        line_texts(r@) == displayed_log(entries(logs@), *filters),
{
    let mut lines: Vec<(LogLevel, String)> = Vec::new();
    let ghost all = entries(logs@);
    let ghost shown = |e: LogEntryView| filters.shows(e.level);
    let ghost form = |e: LogEntryView| displayed(e);
    let mut i: usize = 0;
    proof {
        reveal(Seq::filter);
        assert(all.take(0) =~= Seq::empty());
        assert(line_texts(lines@) =~= all.take(0).filter(shown).map_values(form));
    }
    while i < logs.len()
        invariant
            i <= logs.len(),
            all == entries(logs@),
            shown == (|e: LogEntryView| filters.shows(e.level)),
            form == (|e: LogEntryView| displayed(e)),
            line_texts(lines@) == all.take(i as int).filter(shown).map_values(form),
        decreases logs.len() - i,
    {
        let entry = &logs[i];
        let ghost kept = all.take(i as int).filter(shown);
        proof {
            assert(all.take(i + 1) =~= all.take(i as int).push(entry@));
            lemma_filter_push(all.take(i as int), entry@, shown);
        }
        let ghost before = line_texts(lines@);
        if filters.includes(entry.level) {
            let line = "[".to_string().concat(entry.level.as_str()).concat("] ").concat(
                entry.message.as_str(),
            );
            lines.push((entry.level, line));
            assert(line_texts(lines@) =~= before.push(displayed(entry@)));
            assert(kept.push(entry@).map_values(form) =~= kept.map_values(form).push(
                displayed(entry@),
            ));
        }
        i = i + 1;
    }
    assert(all.take(i as int) == all);
    lines
}

/// The heading above the log: how many lines are shown, and how many there are.
pub fn log_summary(shown: usize, total: usize) -> (r: String)
    ensures
        r@ == "Showing "@ + decimal(shown as nat) + " / "@ + decimal(total as nat) + " log lines"@,
{
    "Showing ".to_string().concat(decimal_string(shown as u64).as_str()).concat(" / ").concat(
        decimal_string(total as u64).as_str(),
    ).concat(" log lines")
}

/// After a line was added the log has its bound, the new line is the last one, and
/// what stands before it is the end of what was there.
pub proof fn log_keeps_newest(logs: Seq<LogEntryView>, level: LogLevel, message: Seq<char>)
    ensures
        log_after(logs, level, message).len() <= MAX_LOG_LINES,
        log_after(logs, level, message).last() == log_line(level, message),
        logs.len() < MAX_LOG_LINES ==> log_after(logs, level, message) == logs.push(
            log_line(level, message),
        ),
        log_after(logs, level, message).drop_last() == last_of(logs, (MAX_LOG_LINES - 1) as nat),
{
    assert(log_after(logs, level, message).drop_last() =~= last_of(
        logs,
        (MAX_LOG_LINES - 1) as nat,
    ));
}

/// What a lower verbosity shows, the next higher one shows too; errors, warnings
/// and information are shown at every verbosity.
pub proof fn verbosity_levels_are_nested(level: LogLevel)
    ensures
        verbosity(false, false).shows(level) ==> verbosity(true, false).shows(level),
        verbosity(true, false).shows(level) ==> verbosity(true, true).shows(level),
        verbosity(true, true).shows(level),
        verbosity(false, false).shows(level) == (level is Error || level is Warn || level is Info),
{
}

/// A message with anything but white space in it is logged as it is; only one without
/// is replaced. The level is the one given.
pub proof fn messages_are_logged_unchanged(
    logs: Seq<LogEntryView>,
    level: LogLevel,
    message: Seq<char>,
)
    ensures
        log_after(logs, level, message).last().level == level,
        (exists|k: int| 0 <= k < message.len() && !is_white_space(#[trigger] message[k]))
            ==> log_after(logs, level, message).last().message == message,
        (forall|k: int| 0 <= k < message.len() ==> is_white_space(#[trigger] message[k]))
            ==> log_after(logs, level, message).last().message == "<empty>"@,
{
    blank_texts_are_white_space(message);
}

/// Each level has a switch of its own, and the verbosities set the two finer ones.
pub proof fn each_level_has_its_switch(filters: LogFilters, debug: bool, trace: bool)
    ensures
        filters.shows(LogLevel::Error) == filters.error,
        filters.shows(LogLevel::Warn) == filters.warn,
        filters.shows(LogLevel::Info) == filters.info,
        filters.shows(LogLevel::Debug) == filters.debug,
        filters.shows(LogLevel::Trace) == filters.trace,
        verbosity(debug, trace).debug == debug,
        verbosity(debug, trace).trace == trace,
{
}

/// The message ends its line, whole, behind its level in brackets.
pub proof fn lines_show_the_whole_message(entry: LogEntryView)
    ensures
        displayed(entry).0 == entry.level,
        ({
            let line = displayed(entry).1;
            let front = entry.level.label().len() as int + 3;
            &&& line.len() == front + entry.message.len()
            &&& line.skip(front) == entry.message
            &&& line[0] == '['
            &&& line.subrange(1, front - 2) == entry.level.label()
            &&& line[front - 2] == ']'
            &&& line[front - 1] == ' '
        }),
{
    reveal_strlit("[");
    reveal_strlit("] ");
    let line = displayed(entry).1;
    let front = entry.level.label().len() as int + 3;
    assert(line.skip(front) =~= entry.message);
    assert(line.subrange(1, front - 2) =~= entry.level.label());
}

/// A line that is added to the log is displayed last if its level is shown, and not
/// at all if it is not; what was displayed before stays.
pub proof fn shown_lines_are_displayed(
    logs: Seq<LogEntryView>,
    entry: LogEntryView,
    filters: LogFilters,
)
    ensures
        displayed_log(seq![], filters).len() == 0,
        filters.shows(entry.level) ==> displayed_log(logs.push(entry), filters) == displayed_log(
            logs,
            filters,
        ).push(displayed(entry)),
        !filters.shows(entry.level) ==> displayed_log(logs.push(entry), filters) == displayed_log(
            logs,
            filters,
        ),
{
    let shown = |e: LogEntryView| filters.shows(e.level);
    lemma_filter_push(logs, entry, shown);
    reveal(Seq::filter);
    if filters.shows(entry.level) {
        assert(displayed_log(logs.push(entry), filters) =~= displayed_log(logs, filters).push(
            displayed(entry),
        ));
    }
}

/// The lines of a log are its entries, one by one.
pub proof fn log_lines_are_the_entries(
    logs: Seq<LogEntry>,
    lines: Seq<(LogLevel, String)>,
    i: int,
)
    ensures
        entries(logs).len() == logs.len(),
        0 <= i < logs.len() ==> entries(logs)[i].level == logs[i].level && entries(logs)[i].message
            == logs[i].message@,
        line_texts(lines).len() == lines.len(),
        0 <= i < lines.len() ==> line_texts(lines)[i] == (lines[i].0, lines[i].1@),
{
}

/// A full log loses its oldest line for a new one, and no other; it never holds more
/// than twenty thousand lines.
pub proof fn full_logs_lose_the_oldest_line(
    logs: Seq<LogEntryView>,
    level: LogLevel,
    message: Seq<char>,
    i: int,
)
    requires
        logs.len() <= 20_000,
    ensures
        ({
            let next = log_after(logs, level, message);
            &&& logs.len() < 20_000 ==> next.len() == logs.len() + 1
            &&& logs.len() < 20_000 && 0 <= i < logs.len() ==> next[i] == logs[i]
            &&& logs.len() == 20_000 ==> next.len() == 20_000
            &&& logs.len() == 20_000 && 0 <= i < 19_999 ==> next[i] == logs[i + 1]
        }),
{
}

} // verus!
