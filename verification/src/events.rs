//! What happens to connections after they were opened: output, errors and exits.

use vstd::prelude::*;
use vstd::string::*;

use crate::log::{log_after, LogLevel};
use crate::screen::session_text;
use crate::seqs::lemma_filter_push;
use crate::sessions::{fed, output_is_added_at_the_end, output_stays_in_its_tab};
use crate::state::{AppView, Ec2GuiApp};
use crate::terminal::ProcEvent;
use crate::text::{decimal, decimal_string, signed_decimal, signed_decimal_string};

verus! {

/// The exit code that stands for a process whose end could not be waited for.
pub const WAIT_FAILED_CODE: i32 = -1;

/// What to do with the tab that an event is about.
#[derive(Debug, Clone, PartialEq, Eq)]
pub struct TabUpdate {
    pub tab_id: u64,
    /// The line to add to it.
    pub line: Option<String>,
    /// Whether it is no longer running.
    pub stopped: bool,
}

/// What a look at a process found.
#[derive(Debug, Clone, PartialEq, Eq)]
pub enum WaitOutcome {
    Running,
    Ended(u32),
    Failed(String),
}

/// What to do after a look at all processes.
#[derive(Debug, Clone, PartialEq, Eq)]
pub struct ReapPlan {
    /// The lines to add, each with its tab.
    pub lines: Vec<(u64, String)>,
    /// The tabs whose process is gone, each with its exit code.
    pub exited: Vec<(u64, i32)>,
}

/// The line that an event adds to its tab.
pub open spec fn event_line(event: ProcEvent) -> Option<Seq<char>> {
    match event {
        ProcEvent::Output { .. } => None,
        ProcEvent::Error { tab_id, error } => Some("[error] "@ + error@),
        ProcEvent::Exited { tab_id, code } => Some("[exit] code="@ + signed_decimal(code as int)),
    }
}

/// The tab that an event is about.
pub open spec fn event_tab(event: ProcEvent) -> u64 {
    match event {
        ProcEvent::Output { tab_id, bytes } => tab_id,
        ProcEvent::Error { tab_id, error } => tab_id,
        ProcEvent::Exited { tab_id, code } => tab_id,
    }
}

/// The exit code as a signed number: the upper half of the range stands for the
/// negative ones.
pub open spec fn signed_code(code: u32) -> i32 {
    if code < 0x8000_0000 {
        code as i32
    } else {
        (code - 0x1_0000_0000) as i32
    }
}

/// Whether the process of a tab is gone, and its exit code.
pub open spec fn exit_of(wait: (u64, WaitOutcome)) -> Option<(u64, i32)> {
    match wait.1 {
        WaitOutcome::Running => None,
        WaitOutcome::Ended(code) => Some((wait.0, signed_code(code))),
        WaitOutcome::Failed(error) => Some((wait.0, WAIT_FAILED_CODE)),
    }
}

/// The processes that are gone, in the order of the looks.
pub open spec fn exits(waits: Seq<(u64, WaitOutcome)>) -> Seq<(u64, i32)> {
    waits.filter(|w: (u64, WaitOutcome)| exit_of(w) is Some).map_values(
        |w: (u64, WaitOutcome)| exit_of(w)->0,
    )
}

/// The lines for the processes that could not be waited for.
pub open spec fn failure_lines(waits: Seq<(u64, WaitOutcome)>) -> Seq<(u64, Seq<char>)> {
    waits.filter(|w: (u64, WaitOutcome)| w.1 is Failed).map_values(
        |w: (u64, WaitOutcome)| (w.0, "[wait error] "@ + w.1->Failed_0@),
    )
}

/// Tabs and texts of lines.
pub open spec fn tab_texts(lines: Seq<(u64, String)>) -> Seq<(u64, Seq<char>)> {
    lines.map_values(|l: (u64, String)| (l.0, l.1@))
}

impl AppView {
    /// This state once an event was seen.
    pub open spec fn with_event(self, event: ProcEvent) -> AppView {
        match event {
            ProcEvent::Output { tab_id, bytes } => AppView {
                pty_sessions: fed(self.pty_sessions, tab_id, bytes@),
                ..self
            }.logged(
                LogLevel::Trace,
                "tab="@ + decimal(tab_id as nat) + " output bytes="@ + decimal(bytes@.len()),
            ),
            ProcEvent::Error { tab_id, error } => self.logged(
                LogLevel::Error,
                "tab="@ + decimal(tab_id as nat) + " process error: "@ + error@,
            ),
            ProcEvent::Exited { tab_id, code } => self.logged(
                LogLevel::Info,
                "tab="@ + decimal(tab_id as nat) + " process exited with code "@ + signed_decimal(
                    code as int,
                ),
            ),
        }
    }

    /// This state once a tab was closed.
    pub open spec fn with_tab_closed(self, tab_id: u64) -> AppView {
        AppView { pty_sessions: self.pty_sessions.remove(tab_id), ..self }.logged(
            LogLevel::Info,
            "closed connection tab id="@ + decimal(tab_id as nat),
        )
    }

    /// This state once all processes were looked at: the tabs of those that are gone
    /// have no terminal any more, and each that could not be waited for is logged.
    pub open spec fn with_waits(self, waits: Seq<(u64, WaitOutcome)>) -> AppView
        decreases waits.len(),
    {
        if waits.len() == 0 {
            self
        } else {
            let rest = self.with_waits(waits.drop_last());
            let without = AppView {
                pty_sessions: rest.pty_sessions.remove(waits.last().0),
                ..rest
            };
            match waits.last().1 {
                WaitOutcome::Running => rest,
                WaitOutcome::Ended(code) => without,
                WaitOutcome::Failed(error) => without.logged(
                    LogLevel::Error,
                    "tab="@ + decimal(waits.last().0 as nat) + " wait error: "@ + error@,
                ),
            }
        }
    }
}

proof fn lemma_exits_push(waits: Seq<(u64, WaitOutcome)>, wait: (u64, WaitOutcome))
    ensures
        exits(waits.push(wait)) == match exit_of(wait) {
            Some(e) => exits(waits).push(e),
            None => exits(waits),
        },
        failure_lines(waits.push(wait)) == match wait.1 {
            WaitOutcome::Failed(error) => failure_lines(waits).push(
                (wait.0, "[wait error] "@ + error@),
            ),
            _ => failure_lines(waits),
        },
{
    lemma_filter_push(waits, wait, |w: (u64, WaitOutcome)| exit_of(w) is Some);
    lemma_filter_push(waits, wait, |w: (u64, WaitOutcome)| w.1 is Failed);
    if exit_of(wait) is Some {
        assert(exits(waits.push(wait)) =~= exits(waits).push(exit_of(wait)->0));
    }
    if wait.1 is Failed {
        assert(failure_lines(waits.push(wait)) =~= failure_lines(waits).push(
            (wait.0, "[wait error] "@ + wait.1->Failed_0@),
        ));
    }
}

impl Ec2GuiApp {
    /// Logs an event, and says what it changes in its tab. Output changes nothing
    /// there: it is given to the tab's terminal.
    pub fn handle_event(&mut self, event: &ProcEvent) -> (r: TabUpdate)
        ensures
            final(self)@ == old(self)@.with_event(*event),
            r.tab_id == event_tab(*event),
            match event_line(*event) {
                Some(line) => r.line matches Some(l) && l@ == line,
                None => r.line is None,
            },
            r.stopped == (*event is Exited),
            old(self)@.wf() ==> final(self)@.wf(),
    {
        match event {
            ProcEvent::Output { tab_id, bytes } => {
                self.log(
                    LogLevel::Trace,
                    "tab=".to_string().concat(decimal_string(*tab_id).as_str()).concat(
                        " output bytes=",
                    ).concat(decimal_string(bytes.len() as u64).as_str()),
                );
                self.pty_sessions.feed(*tab_id, bytes.as_slice());
                TabUpdate { tab_id: *tab_id, line: None, stopped: false }
            },
            ProcEvent::Error { tab_id, error } => {
                self.log_error(
                    "tab=".to_string().concat(decimal_string(*tab_id).as_str()).concat(
                        " process error: ",
                    ).concat(error.as_str()),
                );
                let line = "[error] ".to_string().concat(error.as_str());
                TabUpdate { tab_id: *tab_id, line: Some(line), stopped: false }
            },
            ProcEvent::Exited { tab_id, code } => {
                let code_text = signed_decimal_string(*code);
                self.log_info(
                    "tab=".to_string().concat(decimal_string(*tab_id).as_str()).concat(
                        " process exited with code ",
                    ).concat(code_text.as_str()),
                );
                let line = "[exit] code=".to_string().concat(code_text.as_str());
                TabUpdate { tab_id: *tab_id, line: Some(line), stopped: true }
            },
        }
    }

    /// Takes note of what a look at all processes found: which are gone, and which
    /// could not be waited for and count as gone too. Their terminals go with them.
    pub fn reap(&mut self, waits: &[(u64, WaitOutcome)]) -> (r: ReapPlan)
        ensures
            final(self)@ == old(self)@.with_waits(waits@),
            tab_texts(r.lines@) == failure_lines(waits@),
            r.exited@ == exits(waits@),
            old(self)@.wf() ==> final(self)@.wf(),
    {
        let ghost before = self@;
        let mut lines: Vec<(u64, String)> = Vec::new();
        let mut exited: Vec<(u64, i32)> = Vec::new();
        let mut i: usize = 0;
        proof {
            reveal(Seq::filter);
            assert(tab_texts(lines@) =~= failure_lines(waits@.take(0)));
            assert(exited@ =~= exits(waits@.take(0)));
        }
        while i < waits.len()
            invariant
                i <= waits.len(),
                self@ == before.with_waits(waits@.take(i as int)),
                before.wf() ==> self@.wf(),
                tab_texts(lines@) == failure_lines(waits@.take(i as int)),
                exited@ == exits(waits@.take(i as int)),
            decreases waits.len() - i,
        {
            proof {
                assert(waits@.take(i + 1) =~= waits@.take(i as int).push(waits@[i as int]));
                assert(waits@.take(i + 1).drop_last() =~= waits@.take(i as int));
                lemma_exits_push(waits@.take(i as int), waits@[i as int]);
            }
            let tab_id: u64 = waits[i].0;
            match &waits[i].1 {
                WaitOutcome::Running => {},
                WaitOutcome::Ended(code) => {
                    let code: u32 = *code;
                    assert(code as i32 == if code < 0x8000_0000u32 {
                        code as int
                    } else {
                        code - 0x1_0000_0000
                    }) by (bit_vector);
                    self.pty_sessions.close(tab_id);
                    exited.push((tab_id, code as i32));
                },
                WaitOutcome::Failed(error) => {
                    let ghost sofar = tab_texts(lines@);
                    self.pty_sessions.close(tab_id);
                    self.log_error(
                        "tab=".to_string().concat(decimal_string(tab_id).as_str()).concat(
                            " wait error: ",
                        ).concat(error.as_str()),
                    );
                    let line = "[wait error] ".to_string().concat(error.as_str());
                    lines.push((tab_id, line));
                    assert(tab_texts(lines@) =~= sofar.push((tab_id, line@)));
                    exited.push((tab_id, WAIT_FAILED_CODE));
                },
            }
            i = i + 1;
        }
        assert(waits@.take(i as int) == waits@);
        ReapPlan { lines, exited }
    }

    /// Notes that a tab was closed, and takes its terminal away.
    pub fn close_connection_tab(&mut self, tab_id: u64)
        ensures
            final(self)@ == old(self)@.with_tab_closed(tab_id),
            old(self)@.wf() ==> final(self)@.wf(),
    {
        self.pty_sessions.close(tab_id);
        self.log_info(
            "closed connection tab id=".to_string().concat(decimal_string(tab_id).as_str()),
        );
    }
}

/// The tab of a process that is gone has no terminal afterwards; the terminals of
/// the tabs whose processes run, and of those not looked at, are as they were.
pub proof fn terminals_go_with_their_processes(
    app: AppView,
    waits: Seq<(u64, WaitOutcome)>,
    tab_id: u64,
)
    ensures
        app.with_waits(waits).pty_sessions.dom().contains(tab_id)
            <==> app.pty_sessions.dom().contains(tab_id) && forall|i: int|
            0 <= i < waits.len() && (#[trigger] waits[i]).0 == tab_id ==> waits[i].1 is Running,
        app.with_waits(waits).pty_sessions.dom().contains(tab_id) ==> app.with_waits(
            waits,
        ).pty_sessions[tab_id] == app.pty_sessions[tab_id],
    decreases waits.len(),
{
    if waits.len() > 0 {
        let rest = waits.drop_last();
        terminals_go_with_their_processes(app, rest, tab_id);
        assert(forall|i: int| 0 <= i < rest.len() ==> rest[i] == #[trigger] waits[i]);
        assert(waits[waits.len() - 1] == waits.last());
        if forall|i: int|
            0 <= i < waits.len() && (#[trigger] waits[i]).0 == tab_id ==> waits[i].1 is Running {
            assert forall|i: int| 0 <= i < rest.len() && (#[trigger] rest[i]).0
                == tab_id implies rest[i].1 is Running by {
                assert(waits[i] == rest[i]);
            }
        }
    }
}

/// Every process that was looked at and is not running any more is reported as
/// gone, and there are no more reports than such processes.
pub proof fn gone_processes_are_reported(waits: Seq<(u64, WaitOutcome)>, i: int)
    requires
        0 <= i < waits.len(),
    ensures
        !(waits[i].1 is Running) ==> exits(waits).contains(exit_of(waits[i])->0),
        exits(waits).len() == waits.filter(|w: (u64, WaitOutcome)| !(w.1 is Running)).len(),
    decreases waits.len(),
{
    let rest = waits.drop_last();
    let last = waits.last();
    assert(waits =~= rest.push(last));
    lemma_exits_push(rest, last);
    lemma_filter_push(rest, last, |w: (u64, WaitOutcome)| !(w.1 is Running));
    if rest.len() > 0 {
        gone_processes_are_reported(rest, if i < rest.len() { i } else { 0 });
    } else {
        reveal(Seq::filter);
        assert(exits(rest) =~= Seq::empty());
    }
    if !(waits[i].1 is Running) {
        let gone = exit_of(waits[i])->0;
        if i < rest.len() {
            let k = choose|k: int| 0 <= k < exits(rest).len() && exits(rest)[k] == gone;
            assert(exits(waits)[k] == gone);
        } else {
            assert(exits(waits)[exits(rest).len() as int] == gone);
        }
    }
}

/// Output that comes for a tab is added to what its terminal was given before, so two
/// pieces have the effect of one that holds both; no other terminal is touched, none
/// is opened or closed, and nothing else changes but the log.
pub proof fn output_adds_to_the_terminal(
    app: AppView,
    tab_id: u64,
    other: u64,
    first: Vec<u8>,
    second: Vec<u8>,
    both: Vec<u8>,
)
    requires
        both@ == first@ + second@,
    ensures
        ({
            let next = app.with_event(ProcEvent::Output { tab_id, bytes: first });
            let twice = next.with_event(ProcEvent::Output { tab_id, bytes: second });
            let once = app.with_event(ProcEvent::Output { tab_id, bytes: both });
            &&& app.pty_sessions.dom().contains(tab_id) ==> next.pty_sessions[tab_id]
                == app.pty_sessions[tab_id] + first@
            &&& app.pty_sessions.dom().contains(tab_id) ==> twice.pty_sessions[tab_id]
                == app.pty_sessions[tab_id] + first@ + second@
            &&& twice.pty_sessions == once.pty_sessions
            &&& next.pty_sessions.dom() == app.pty_sessions.dom()
            &&& other != tab_id ==> next.pty_sessions[other] == app.pty_sessions[other]
            &&& next == AppView { pty_sessions: next.pty_sessions, logs: next.logs, ..app }
            &&& next.logs == log_after(
                app.logs,
                LogLevel::Trace,
                "tab="@ + decimal(tab_id as nat) + " output bytes="@ + decimal(first@.len()),
            )
        }),
{
    output_is_added_at_the_end(app.pty_sessions, tab_id, first@);
    output_stays_in_its_tab(app.pty_sessions, tab_id, other, first@, second@);
    let next = app.with_event(ProcEvent::Output { tab_id, bytes: first });
    output_is_added_at_the_end(next.pty_sessions, tab_id, second@);
}

/// What a tab shows after an event of output is the text of a terminal that was given
/// what it was given before and then that output.
pub proof fn output_is_shown(app: AppView, tab_id: u64, bytes: Vec<u8>, show_cursor: bool)
    requires
        app.pty_sessions.dom().contains(tab_id),
    ensures
        session_text(
            app.with_event(ProcEvent::Output { tab_id, bytes }).pty_sessions[tab_id],
            show_cursor,
        ) == session_text(app.pty_sessions[tab_id] + bytes@, show_cursor),
{
}

/// Errors and exits leave the terminals as they are and change nothing but the log,
/// which tells the tab and the whole error or the code. Each event is about the tab
/// that it names, and only errors and exits add a line to it, with the same.
pub proof fn errors_and_exits_are_told(app: AppView, tab_id: u64, error: String, code: i32)
    ensures
        app.with_event(ProcEvent::Error { tab_id, error }) == (AppView {
            logs: log_after(
                app.logs,
                LogLevel::Error,
                "tab="@ + decimal(tab_id as nat) + " process error: "@ + error@,
            ),
            ..app
        }),
        app.with_event(ProcEvent::Exited { tab_id, code }) == (AppView {
            logs: log_after(
                app.logs,
                LogLevel::Info,
                "tab="@ + decimal(tab_id as nat) + " process exited with code "@ + signed_decimal(
                    code as int,
                ),
            ),
            ..app
        }),
        event_line(ProcEvent::Error { tab_id, error }) == Some("[error] "@ + error@),
        event_line(ProcEvent::Exited { tab_id, code }) == Some(
            "[exit] code="@ + signed_decimal(code as int),
        ),
        event_tab(ProcEvent::Error { tab_id, error }) == tab_id,
        event_tab(ProcEvent::Exited { tab_id, code }) == tab_id,
{
}

/// Output adds no line to its tab, and is about the tab that it names.
pub proof fn output_adds_no_line(tab_id: u64, bytes: Vec<u8>)
    ensures
        event_line(ProcEvent::Output { tab_id, bytes }) is None,
        event_tab(ProcEvent::Output { tab_id, bytes }) == tab_id,
{
}

/// The signed exit code is the one reported, up to a multiple of two to the thirty-second.
pub proof fn signed_codes_agree(code: u32)
    ensures
        code < 0x8000_0000 ==> signed_code(code) == code,
        code >= 0x8000_0000 ==> signed_code(code) == code - 0x1_0000_0000,
{
}

/// Each process that is looked at counts for itself: one that runs adds nothing, one
/// that ended is reported under its tab with its code, and one that could not be
/// waited for is reported with a code of minus one, and a line and a log entry tell
/// the whole reason.
pub proof fn each_process_is_looked_at(
    app: AppView,
    waits: Seq<(u64, WaitOutcome)>,
    tab_id: u64,
    code: u32,
    error: String,
)
    ensures
        exits(seq![]).len() == 0 && failure_lines(seq![]).len() == 0,
        app.with_waits(seq![]) == app,
        ({
            let running = waits.push((tab_id, WaitOutcome::Running));
            &&& exits(running) == exits(waits)
            &&& failure_lines(running) == failure_lines(waits)
            &&& app.with_waits(running) == app.with_waits(waits)
        }),
        ({
            let ended = waits.push((tab_id, WaitOutcome::Ended(code)));
            &&& exits(ended) == exits(waits).push((tab_id, signed_code(code)))
            &&& failure_lines(ended) == failure_lines(waits)
            &&& app.with_waits(ended).logs == app.with_waits(waits).logs
        }),
        ({
            let failed = waits.push((tab_id, WaitOutcome::Failed(error)));
            &&& exits(failed) == exits(waits).push((tab_id, -1i32))
            &&& failure_lines(failed) == failure_lines(waits).push(
                (tab_id, "[wait error] "@ + error@),
            )
            &&& app.with_waits(failed).logs == log_after(
                app.with_waits(waits).logs,
                LogLevel::Error,
                "tab="@ + decimal(tab_id as nat) + " wait error: "@ + error@,
            )
        }),
{
    let running = (tab_id, WaitOutcome::Running);
    let ended = (tab_id, WaitOutcome::Ended(code));
    let failed = (tab_id, WaitOutcome::Failed(error));
    lemma_exits_push(waits, running);
    lemma_exits_push(waits, ended);
    lemma_exits_push(waits, failed);
    assert(waits.push(running).drop_last() =~= waits);
    assert(waits.push(ended).drop_last() =~= waits);
    assert(waits.push(failed).drop_last() =~= waits);
    reveal(Seq::filter);
}

/// Looking at processes changes the terminals and the log only.
pub proof fn looks_at_processes_touch_little(app: AppView, waits: Seq<(u64, WaitOutcome)>)
    ensures
        app.with_waits(waits) == (AppView {
            pty_sessions: app.with_waits(waits).pty_sessions,
            logs: app.with_waits(waits).logs,
            ..app
        }),
    decreases waits.len(),
{
    if waits.len() > 0 {
        looks_at_processes_touch_little(app, waits.drop_last());
    }
}

/// A tab that is closed has no terminal any more; every other terminal stays as it
/// is, and nothing else changes but the log.
pub proof fn closed_tabs_lose_their_terminal(app: AppView, tab_id: u64, other: u64)
    ensures
        ({
            let next = app.with_tab_closed(tab_id);
            &&& !next.pty_sessions.dom().contains(tab_id)
            &&& other != tab_id ==> (next.pty_sessions.dom().contains(other)
                <==> app.pty_sessions.dom().contains(other))
            &&& other != tab_id && app.pty_sessions.dom().contains(other)
                ==> next.pty_sessions[other] == app.pty_sessions[other]
            &&& next == AppView { pty_sessions: next.pty_sessions, logs: next.logs, ..app }
            &&& next.logs == log_after(
                app.logs,
                LogLevel::Info,
                "closed connection tab id="@ + decimal(tab_id as nat),
            )
        }),
{
}

/// Lines for tabs are the tab and the text of each, one by one.
pub proof fn tab_lines_are_their_texts(lines: Seq<(u64, String)>, i: int)
    ensures
        tab_texts(lines).len() == lines.len(),
        0 <= i < lines.len() ==> tab_texts(lines)[i] == (lines[i].0, lines[i].1@),
{
}

} // verus!
