//! The shells that connections run in, and the bytes that key presses send.

use vstd::prelude::*;
use vstd::string::*;

use crate::aws_cli::CommandPlan;
use crate::error::{AppError, AppErrorView};
use crate::models::{AwsContext, TerminalOption};
use crate::seqs::lemma_filter_push;
use crate::text::{same_text, texts};

verus! {

/// The first terminal with the given id.
pub open spec fn terminal_with_id(terminals: Seq<TerminalOption>, id: Seq<char>) -> Option<
    TerminalOption,
>
    decreases terminals.len(),
{
    if terminals.len() == 0 {
        None
    } else if terminals.first().id@ == id {
        Some(terminals.first())
    } else {
        terminal_with_id(terminals.drop_first(), id)
    }
}

/// The first terminal with the given id.
pub fn find_terminal<'a>(terminals: &'a [TerminalOption], id: &str) -> (r: Option<
    &'a TerminalOption,
>)
    ensures
        match terminal_with_id(terminals@, id@) {
            Some(t) => r == Some(&t),
            None => r is None,
        },
{
    let mut i: usize = 0;
    assert(terminals@.skip(0) == terminals@);
    while i < terminals.len()
        invariant
            i <= terminals.len(),
            terminal_with_id(terminals@, id@) == terminal_with_id(terminals@.skip(i as int), id@),
        decreases terminals.len() - i,
    {
        if same_text(terminals[i].id.as_str(), id) {
            return Some(&terminals[i]);
        }
        assert(terminals@.skip(i as int).drop_first() == terminals@.skip(i + 1));
        i = i + 1;
    }
    None
}

/// The terminal to select at first: the configured one where it was found, else
/// the first one, else none.
pub open spec fn initial_terminal(
    picked: Option<&TerminalOption>,
    terminals: Seq<TerminalOption>,
) -> Seq<char> {
    match picked {
        Some(t) => t.id@,
        None => if terminals.len() > 0 {
            terminals[0].id@
        } else {
            Seq::empty()
        },
    }
}

/// The id of the terminal to select at first, where `picked` is the one that the
/// configuration asks for.
pub fn initial_terminal_id(picked: Option<&TerminalOption>, terminals: &[TerminalOption]) -> (r:
    String)
    ensures
        r@ == initial_terminal(picked, terminals@),
{
    match picked {
        Some(t) => t.id.clone(),
        None => {
            if terminals.len() > 0 {
                terminals[0].id.clone()
            } else {
                String::new()
            }
        },
    }
}

/// Whether `id` is that of a Windows terminal that needs no arguments.
pub open spec fn is_plain_windows_shell(id: Seq<char>) -> bool {
    id == "pwsh"@ || id == "powershell"@ || id == "wt"@ || id == "git-bash"@ || id == "msys2-bash"@
}

/// The shell to run: its program and arguments.
pub open spec fn shell_of(windows: bool, terminal: Option<&TerminalOption>) -> (
    Seq<char>,
    Seq<Seq<char>>,
) {
    if windows {
        match terminal {
            Some(t) => if is_plain_windows_shell(t.id@) {
                (t.program@, Seq::empty())
            } else if t.id@ == "wsl"@ {
                (t.program@, seq!["--"@, "bash"@])
            } else {
                ("cmd"@, seq!["/Q"@, "/K"@])
            },
            None => ("cmd"@, seq!["/Q"@, "/K"@]),
        }
    } else {
        ("/bin/bash"@, seq!["-i"@])
    }
}

/// The shell to run under the selected terminal, on Windows or elsewhere.
pub fn shell_plan(windows: bool, terminal: Option<&TerminalOption>) -> (r: (String, Vec<String>))
    ensures
        (r.0@, texts(r.1@)) == shell_of(windows, terminal),
{
    let mut args: Vec<String> = Vec::new();
    if !windows {
        args.push("-i".to_string());
        assert(texts(args@) =~= seq!["-i"@]);
        return ("/bin/bash".to_string(), args);
    }
    if let Some(t) = terminal {
        let id = t.id.as_str();
        if same_text(id, "pwsh") || same_text(id, "powershell") || same_text(id, "wt")
            || same_text(id, "git-bash") || same_text(id, "msys2-bash") {
            assert(texts(args@) =~= Seq::empty());
            return (t.program.clone(), args);
        }
        if same_text(id, "wsl") {
            args.push("--".to_string());
            args.push("bash".to_string());
            assert(texts(args@) =~= seq!["--"@, "bash"@]);
            return (t.program.clone(), args);
        }
    }
    args.push("/Q".to_string());
    args.push("/K".to_string());
    assert(texts(args@) =~= seq!["/Q"@, "/K"@]);
    ("cmd".to_string(), args)
}

/// The environment variables of a connection's shell.
pub open spec fn shell_env(context: AwsContext) -> Seq<(Seq<char>, Seq<char>)> {
    seq![("AWS_PROFILE"@, context.profile@), ("AWS_REGION"@, context.region@)]
}

/// Names and values of environment variables.
pub open spec fn env_texts(envs: Seq<(String, String)>) -> Seq<(Seq<char>, Seq<char>)> {
    envs.map_values(|e: (String, String)| (e.0@, e.1@))
}

/// The command that runs in a connection's terminal: the shell, told which
/// profile and region to use.
pub fn pty_command(windows: bool, terminal: Option<&TerminalOption>, context: &AwsContext) -> (r:
    CommandPlan)
    ensures
        (r.program@, texts(r.args@)) == shell_of(windows, terminal),
        env_texts(r.envs@) == shell_env(*context),
{
    let (program, args) = shell_plan(windows, terminal);
    let mut envs: Vec<(String, String)> = Vec::new();
    envs.push(("AWS_PROFILE".to_string(), context.profile.clone()));
    envs.push(("AWS_REGION".to_string(), context.region.clone()));
    assert(env_texts(envs@) =~= shell_env(*context));
    CommandPlan { program, args, envs }
}

/// The steps of opening a terminal that can fail.
#[derive(Debug, Clone, Copy, PartialEq, Eq, Structural)]
pub enum PtyStep {
    Allocate,
    Spawn,
    Reader,
    Writer,
}

impl PtyStep {
    /// What is said when the step fails.
    pub open spec fn complaint(self) -> Seq<char> {
        match self {
            PtyStep::Allocate => "Failed to allocate PTY: "@,
            PtyStep::Spawn => "Failed to spawn PTY shell: "@,
            PtyStep::Reader => "Failed to create PTY reader: "@,
            PtyStep::Writer => "Failed to create PTY writer: "@,
        }
    }
}

/// The error for a failed step of opening a terminal.
pub fn pty_error(step: PtyStep, reason: &str) -> (r: AppError)
    ensures
        r@ == AppErrorView::Parse(step.complaint() + reason@),
{
    let complaint = match step {
        PtyStep::Allocate => "Failed to allocate PTY: ",
        PtyStep::Spawn => "Failed to spawn PTY shell: ",
        PtyStep::Reader => "Failed to create PTY reader: ",
        PtyStep::Writer => "Failed to create PTY writer: ",
    };
    AppError::Parse(complaint.to_string().concat(reason))
}

/// The keys that mean something to a terminal beyond the text they type.
#[derive(Debug, Clone, Copy, PartialEq, Eq, Structural)]
pub enum TerminalKey {
    Enter,
    Backspace,
    Tab,
    Escape,
    ArrowUp,
    ArrowDown,
    ArrowRight,
    ArrowLeft,
    C,
    D,
    L,
    Other,
}

/// An input event, as far as a terminal cares for it.
#[derive(Debug, Clone, PartialEq, Eq)]
pub enum TerminalEvent {
    Text(String),
    Paste(String),
    Key { key: TerminalKey, pressed: bool, ctrl: bool },
    Other,
}

/// The bytes that pressing `key` sends.
pub open spec fn key_bytes(key: TerminalKey, ctrl: bool) -> Option<Seq<u8>> {
    match key {
        TerminalKey::Enter => Some(seq![0x0du8]),
        TerminalKey::Backspace => Some(seq![0x7fu8]),
        TerminalKey::Tab => Some(seq![0x09u8]),
        TerminalKey::Escape => Some(seq![0x1bu8]),
        TerminalKey::ArrowUp => Some(seq![0x1bu8, 0x5bu8, 0x41u8]),
        TerminalKey::ArrowDown => Some(seq![0x1bu8, 0x5bu8, 0x42u8]),
        TerminalKey::ArrowRight => Some(seq![0x1bu8, 0x5bu8, 0x43u8]),
        TerminalKey::ArrowLeft => Some(seq![0x1bu8, 0x5bu8, 0x44u8]),
        TerminalKey::C => if ctrl {
            Some(seq![0x03u8])
        } else {
            None
        },
        TerminalKey::D => if ctrl {
            Some(seq![0x04u8])
        } else {
            None
        },
        TerminalKey::L => if ctrl {
            Some(seq![0x0cu8])
        } else {
            None
        },
        TerminalKey::Other => None,
    }
}

/// The bytes that an event sends: text in UTF-8, keys when they are pressed.
pub open spec fn event_bytes(event: TerminalEvent) -> Option<Seq<u8>> {
    match event {
        TerminalEvent::Text(text) => Some(vstd::utf8::encode_utf8(text@)),
        TerminalEvent::Paste(text) => Some(vstd::utf8::encode_utf8(text@)),
        TerminalEvent::Key { key, pressed, ctrl } => if pressed {
            key_bytes(key, ctrl)
        } else {
            None
        },
        TerminalEvent::Other => None,
    }
}

fn key_payload(key: TerminalKey, ctrl: bool) -> (r: Option<Vec<u8>>)
    ensures
        match key_bytes(key, ctrl) {
            Some(bytes) => r matches Some(v) && v@ == bytes,
            None => r is None,
        },
{
    match key {
        TerminalKey::Enter => Some(vec![0x0d]),
        TerminalKey::Backspace => Some(vec![0x7f]),
        TerminalKey::Tab => Some(vec![0x09]),
        TerminalKey::Escape => Some(vec![0x1b]),
        TerminalKey::ArrowUp => Some(vec![0x1b, 0x5b, 0x41]),
        TerminalKey::ArrowDown => Some(vec![0x1b, 0x5b, 0x42]),
        TerminalKey::ArrowRight => Some(vec![0x1b, 0x5b, 0x43]),
        TerminalKey::ArrowLeft => Some(vec![0x1b, 0x5b, 0x44]),
        TerminalKey::C => {
            if ctrl {
                Some(vec![0x03])
            } else {
                None
            }
        },
        TerminalKey::D => {
            if ctrl {
                Some(vec![0x04])
            } else {
                None
            }
        },
        TerminalKey::L => {
            if ctrl {
                Some(vec![0x0c])
            } else {
                None
            }
        },
        TerminalKey::Other => None,
    }
}

/// The bytes that an event sends to the terminal, if it sends any.
pub fn terminal_event_payload(event: &TerminalEvent) -> (r: Option<Vec<u8>>)
    ensures
        match event_bytes(*event) {
            Some(bytes) => r matches Some(v) && v@ == bytes,
            None => r is None,
        },
{
    match event {
        TerminalEvent::Text(text) => Some(text.as_str().as_bytes_vec()),
        TerminalEvent::Paste(text) => Some(text.as_str().as_bytes_vec()),
        TerminalEvent::Key { key, pressed, ctrl } => {
            if *pressed {
                key_payload(*key, *ctrl)
            } else {
                None
            }
        },
        TerminalEvent::Other => None,
    }
}

/// The bytes that the events send, in order, one block per event that sends any.
pub open spec fn sent_bytes(events: Seq<TerminalEvent>) -> Seq<Seq<u8>> {
    events.filter(|e: TerminalEvent| event_bytes(e) is Some).map_values(
        |e: TerminalEvent| event_bytes(e)->0,
    )
}

/// The contents of each block.
pub open spec fn blocks(v: Seq<Vec<u8>>) -> Seq<Seq<u8>> {
    v.map_values(|b: Vec<u8>| b@)
}

/// What the events of one frame send to the terminal.
pub fn terminal_payloads(events: &[TerminalEvent]) -> (r: Vec<Vec<u8>>)
    ensures
        blocks(r@) == sent_bytes(events@),
{
    let mut payloads: Vec<Vec<u8>> = Vec::new();
    let ghost sends = |e: TerminalEvent| event_bytes(e) is Some;
    let ghost bytes_of = |e: TerminalEvent| event_bytes(e)->0;
    let mut i: usize = 0;
    proof {
        reveal(Seq::filter);
        assert(blocks(payloads@) =~= sent_bytes(events@.take(0)));
    }
    while i < events.len()
        invariant
            i <= events.len(),
            sends == (|e: TerminalEvent| event_bytes(e) is Some),
            bytes_of == (|e: TerminalEvent| event_bytes(e)->0),
            blocks(payloads@) == sent_bytes(events@.take(i as int)),
        decreases events.len() - i,
    {
        let ghost kept = events@.take(i as int).filter(sends);
        let ghost before = blocks(payloads@);
        let ghost event = events@[i as int];
        proof {
            assert(events@.take(i + 1) =~= events@.take(i as int).push(event));
            lemma_filter_push(events@.take(i as int), event, sends);
        }
        if let Some(payload) = terminal_event_payload(&events[i]) {
            payloads.push(payload);
            assert(blocks(payloads@) =~= before.push(payload@));
            assert(kept.push(event).map_values(bytes_of) =~= kept.map_values(bytes_of).push(
                payload@,
            ));
        }
        i = i + 1;
    }
    assert(events@.take(i as int) == events@);
    payloads
}

/// What the reader of a terminal and the process in it report.
#[derive(Debug, Clone, PartialEq, Eq)]
pub enum ProcEvent {
    Output { tab_id: u64, bytes: Vec<u8> },
    Exited { tab_id: u64, code: i32 },
    Error { tab_id: u64, error: String },
}

/// What one read from a terminal gave: data, none of it at the end, or an error.
#[derive(Debug, Clone, PartialEq, Eq)]
pub enum ReadOutcome {
    Data(Vec<u8>),
    Failed(String),
}

/// What the reader reports after a read, and whether it goes on: it stops at the
/// end of the data and at an error.
pub fn reader_step(tab_id: u64, read: ReadOutcome) -> (r: (Option<ProcEvent>, bool))
    ensures
        match read {
            ReadOutcome::Data(bytes) => if bytes@.len() == 0 {
                r == (None::<ProcEvent>, false)
            } else {
                r == (Some(ProcEvent::Output { tab_id, bytes }), true)
            },
            ReadOutcome::Failed(error) => r == (Some(ProcEvent::Error { tab_id, error }), false),
        },
{
    match read {
        ReadOutcome::Data(bytes) => {
            if bytes.len() == 0 {
                (None, false)
            } else {
                (Some(ProcEvent::Output { tab_id, bytes }), true)
            }
        },
        ReadOutcome::Failed(error) => (Some(ProcEvent::Error { tab_id, error }), false),
    }
}

/// Outside Windows the shell does not depend on the selected terminal, and it
/// always has arguments.
pub proof fn shell_is_fixed_outside_windows(
    a: Option<&TerminalOption>,
    b: Option<&TerminalOption>,
)
    ensures
        shell_of(false, a) == shell_of(false, b),
        shell_of(false, a).1.len() > 0,
{
}

/// Releasing a key sends nothing, and neither does a letter key without the
/// control key: its letter comes as text.
pub proof fn only_presses_send(key: TerminalKey, ctrl: bool)
    ensures
        event_bytes(TerminalEvent::Key { key, pressed: false, ctrl }) is None,
        key is C || key is D || key is L ==> event_bytes(
            TerminalEvent::Key { key, pressed: true, ctrl: false },
        ) is None,
{
}

/// The terminal that is found is the first one with the id, and one is found whenever
/// one has it.
pub proof fn first_terminal_is_found(terminals: Seq<TerminalOption>, id: Seq<char>)
    ensures
        match terminal_with_id(terminals, id) {
            Some(t) => exists|k: int|
                0 <= k < terminals.len() && #[trigger] terminals[k] == t && t.id@ == id
                    && forall|j: int| 0 <= j < k ==> (#[trigger] terminals[j]).id@ != id,
            None => forall|j: int| 0 <= j < terminals.len() ==> (#[trigger] terminals[j]).id@ != id,
        },
    decreases terminals.len(),
{
    if terminals.len() > 0 {
        if terminals.first().id@ == id {
            assert(terminals[0] == terminals.first());
        } else {
            let rest = terminals.drop_first();
            first_terminal_is_found(rest, id);
            assert(forall|j: int| 0 < j < terminals.len() ==> #[trigger] terminals[j] == rest[j - 1]);
            if let Some(t) = terminal_with_id(rest, id) {
                let k = choose|k: int|
                    0 <= k < rest.len() && #[trigger] rest[k] == t && t.id@ == id && forall|j: int|
                        0 <= j < k ==> (#[trigger] rest[j]).id@ != id;
                assert(terminals[k + 1] == t);
            }
        }
    }
}

/// The terminal that the configuration asks for is selected at first; without one,
/// the first that was found, and without any, none.
pub proof fn configured_terminals_come_first(
    picked: Option<&TerminalOption>,
    terminals: Seq<TerminalOption>,
)
    ensures
        picked matches Some(t) ==> initial_terminal(picked, terminals) == t.id@,
        picked is None && terminals.len() > 0 ==> initial_terminal(picked, terminals)
            == terminals[0].id@,
        picked is None && terminals.len() == 0 ==> initial_terminal(picked, terminals).len() == 0,
{
}

/// On Windows a terminal that can host a shell runs its own program, with arguments
/// only for the Linux subsystem; every other choice, and every choice elsewhere, runs
/// the system's shell.
pub proof fn shells_follow_the_terminal(t: TerminalOption)
    ensures
        ({
            let own = shell_of(true, Some(&t));
            let plain = t.id@ == "pwsh"@ || t.id@ == "powershell"@ || t.id@ == "wt"@ || t.id@
                == "git-bash"@ || t.id@ == "msys2-bash"@;
            &&& plain ==> own.0 == t.program@ && own.1.len() == 0
            &&& !plain && t.id@ == "wsl"@ ==> own.0 == t.program@ && own.1 == seq!["--"@, "bash"@]
            &&& !plain && t.id@ != "wsl"@ ==> own == shell_of(true, None)
        }),
        shell_of(true, None) == ("cmd"@, seq!["/Q"@, "/K"@]),
        shell_of(false, Some(&t)) == ("/bin/bash"@, seq!["-i"@]),
        shell_of(false, None) == ("/bin/bash"@, seq!["-i"@]),
{
}

/// A shell is told the profile and the region of its context, and nothing else.
pub proof fn shells_are_told_profile_and_region(context: AwsContext, envs: Seq<(String, String)>, i: int)
    ensures
        shell_env(context).len() == 2,
        shell_env(context)[0] == ("AWS_PROFILE"@, context.profile@),
        shell_env(context)[1] == ("AWS_REGION"@, context.region@),
        env_texts(envs).len() == envs.len(),
        0 <= i < envs.len() ==> env_texts(envs)[i] == (envs[i].0@, envs[i].1@),
{
}

proof fn lemma_encoding_is_not_shorter(text: Seq<char>)
    ensures
        vstd::utf8::encode_utf8(text).len() >= text.len(),
    decreases text.len(),
{
    if text.len() > 0 {
        lemma_encoding_is_not_shorter(text.drop_first());
    }
}

/// Text that is typed or pasted is sent whole, white space included: what is sent is
/// well-formed, decodes to just that text, and has a byte or more for each character.
pub proof fn text_is_sent_whole(text: String)
    ensures
        event_bytes(TerminalEvent::Text(text)) matches Some(bytes) && vstd::utf8::valid_utf8(bytes)
            && vstd::utf8::decode_utf8(bytes) == text@ && bytes.len() >= text@.len(),
        event_bytes(TerminalEvent::Paste(text)) matches Some(bytes) && vstd::utf8::valid_utf8(bytes)
            && vstd::utf8::decode_utf8(bytes) == text@ && bytes.len() >= text@.len(),
{
    vstd::utf8::encode_utf8_valid_utf8(text@);
    vstd::utf8::encode_utf8_decode_utf8(text@);
    lemma_encoding_is_not_shorter(text@);
}

/// Different texts send different bytes, and typing or pasting a text is the same.
pub proof fn different_texts_send_different_bytes(a: String, b: String)
    ensures
        event_bytes(TerminalEvent::Text(a)) == event_bytes(TerminalEvent::Text(b)) ==> a@ == b@,
        event_bytes(TerminalEvent::Text(a)) == event_bytes(TerminalEvent::Paste(a)),
{
    text_is_sent_whole(a);
    text_is_sent_whole(b);
}

/// A key that is pressed sends what a terminal expects of it, with or without the
/// control key; a letter sends its control character, and only with the control key.
pub proof fn pressed_keys_send_their_bytes(key: TerminalKey, ctrl: bool)
    ensures
        ({
            let sent = event_bytes(TerminalEvent::Key { key, pressed: true, ctrl });
            &&& key is Enter ==> sent == Some(seq![13u8])
            &&& key is Backspace ==> sent == Some(seq![127u8])
            &&& key is Tab ==> sent == Some(seq![9u8])
            &&& key is Escape ==> sent == Some(seq![27u8])
            &&& key is ArrowUp ==> sent == Some(seq![27u8, 91u8, 65u8])
            &&& key is ArrowDown ==> sent == Some(seq![27u8, 91u8, 66u8])
            &&& key is ArrowRight ==> sent == Some(seq![27u8, 91u8, 67u8])
            &&& key is ArrowLeft ==> sent == Some(seq![27u8, 91u8, 68u8])
            &&& key is C && ctrl ==> sent == Some(seq![3u8])
            &&& key is D && ctrl ==> sent == Some(seq![4u8])
            &&& key is L && ctrl ==> sent == Some(seq![12u8])
            &&& key is Other ==> sent is None
        }),
        event_bytes(TerminalEvent::Other) is None,
{
}

/// Events send their bytes one after the other: one more event adds its bytes as a
/// block of their own at the end, or nothing if it sends none.
pub proof fn each_event_sends_its_bytes(events: Seq<TerminalEvent>, event: TerminalEvent)
    ensures
        sent_bytes(seq![]).len() == 0,
        event_bytes(event) matches Some(bytes) ==> sent_bytes(events.push(event)) == sent_bytes(
            events,
        ).push(bytes),
        event_bytes(event) is None ==> sent_bytes(events.push(event)) == sent_bytes(events),
{
    lemma_filter_push(events, event, |e: TerminalEvent| event_bytes(e) is Some);
    reveal(Seq::filter);
    if let Some(bytes) = event_bytes(event) {
        assert(sent_bytes(events.push(event)) =~= sent_bytes(events).push(bytes));
    }
}

/// The blocks that are sent are the bytes of each, block by block.
pub proof fn blocks_are_their_bytes(v: Seq<Vec<u8>>, i: int)
    ensures
        blocks(v).len() == v.len(),
        0 <= i < v.len() ==> blocks(v)[i] == v[i]@,
{
}

} // verus!
