//! Watching the file that holds the chosen profile: a change is acted on once it
//! has stayed the same for a while.

use vstd::prelude::*;

verus! {

/// Seconds between two looks at the file.
pub const PROFILE_POLL_INTERVAL_SECS: u64 = 1;

/// Seconds that a change has to last before it is acted on.
pub const PROFILE_CHANGE_DEBOUNCE_SECS: u64 = 2;

/// Nanoseconds in a second.
pub const NANOS_PER_SEC: u32 = 1_000_000_000;

/// A point in time: seconds since the Unix epoch, rounded down, and the
/// nanoseconds beyond them.
#[derive(Debug, Clone, Copy, PartialEq, Eq, Structural)]
pub struct Timestamp {
    pub secs: i64,
    pub nanos: u32,
}

impl View for Timestamp {
    type V = int;

    /// Nanoseconds since the Unix epoch.
    open spec fn view(&self) -> int {
        self.secs * NANOS_PER_SEC + self.nanos
    }
}

/// A length of time.
#[derive(Debug, Clone, Copy, PartialEq, Eq, Structural)]
pub struct Span {
    pub secs: u64,
    pub nanos: u32,
}

impl View for Span {
    type V = nat;

    /// The length in nanoseconds.
    open spec fn view(&self) -> nat {
        (self.secs * NANOS_PER_SEC + self.nanos) as nat
    }
}

/// Points in time that count less than a second of nanoseconds are the same if they
/// are equally far from the epoch, and their seconds are that distance, rounded
/// down to whole seconds.
pub proof fn equal_times_are_the_same(a: Timestamp, b: Timestamp)
    requires
        a.nanos < NANOS_PER_SEC,
        b.nanos < NANOS_PER_SEC,
    ensures
        a == b <==> a@ == b@,
        a.secs == a@ / NANOS_PER_SEC as int,
        a.nanos == a@ % NANOS_PER_SEC as int,
{
}

/// Lengths of time that count less than a second of nanoseconds are the same if they
/// are equally long, and their seconds are that length, rounded down to whole
/// seconds.
pub proof fn equal_spans_are_the_same(a: Span, b: Span)
    requires
        a.nanos < NANOS_PER_SEC,
        b.nanos < NANOS_PER_SEC,
    ensures
        a == b <==> a@ == b@,
        a.secs == a@ / NANOS_PER_SEC as nat,
        a.nanos == a@ % NANOS_PER_SEC as nat,
{
}

/// Whether at least `wait` nanoseconds have passed since the start, if there is
/// one.
pub open spec fn has_passed(started_at: Option<Timestamp>, now: Timestamp, wait: nat) -> bool {
    match started_at {
        Some(start) => now@ - start@ >= wait,
        None => false,
    }
}

/// How long a change has to last, in nanoseconds.
pub open spec fn debounce_time() -> nat {
    (PROFILE_CHANGE_DEBOUNCE_SECS * NANOS_PER_SEC) as nat
}

/// Whole seconds since the Unix epoch, and zero before it.
pub fn now_unix(now: Timestamp) -> (r: u64)
    ensures
        r == if now.secs >= 0 {
            now.secs as int
        } else {
            0
        },
{
    if now.secs >= 0 {
        now.secs as u64
    } else {
        0
    }
}

/// Whether the modification time of the file is another one, or the file came or
/// went.
pub fn profile_choice_changed(previous: Option<Timestamp>, current: Option<Timestamp>) -> (r: bool)
    ensures
        r == (previous != current),
{
    match (previous, current) {
        (Some(p), Some(c)) => !(p == c),
        (None, None) => false,
        _ => true,
    }
}

/// Whether a change that was first seen at `started_at` has lasted for
/// `debounce`. One that was never seen, or seen only later than `now`, has not.
pub fn profile_change_debounce_elapsed(
    started_at: Option<Timestamp>,
    now: Timestamp,
    debounce: Span,
) -> (r: bool)
    ensures
        r == has_passed(started_at, now, debounce@),
{
    match started_at {
        Some(start) => {
            let per_sec: i128 = NANOS_PER_SEC as i128;
            let from: i128 = (start.secs as i128) * per_sec + (start.nanos as i128);
            let to: i128 = (now.secs as i128) * per_sec + (now.nanos as i128);
            let wait: i128 = (debounce.secs as i128) * per_sec + (debounce.nanos as i128);
            to - from >= wait
        },
        None => false,
    }
}

/// Whether it is time for another look at the file.
pub fn profile_poll_due(since_last: Span) -> (r: bool)
    ensures
        r == (since_last@ >= PROFILE_POLL_INTERVAL_SECS * NANOS_PER_SEC),
{
    since_last.secs >= PROFILE_POLL_INTERVAL_SECS || since_last.nanos >= NANOS_PER_SEC
}

/// What is known of the file: the modification time that was acted on last, and
/// the one that is waiting, with the time at which it was first seen.
#[derive(Debug, Clone, Copy, PartialEq, Eq, Structural)]
pub struct ProfileWatch {
    pub last_choice: Option<Timestamp>,
    pub pending_choice: Option<Timestamp>,
    pub pending_since: Option<Timestamp>,
}

/// What a look at the file found.
#[derive(Debug, Clone, Copy, PartialEq, Eq, Structural)]
pub enum ProfilePoll {
    /// The file is as it was when it was last acted on.
    Unchanged,
    /// A change was seen that was not waiting yet.
    DebounceStarted,
    /// The change that is waiting has not lasted long enough.
    Waiting,
    /// The change is to be acted on now.
    Apply,
}

/// A watch that has acted on `choice` and waits for nothing.
pub open spec fn settled(choice: Option<Timestamp>) -> ProfileWatch {
    ProfileWatch { last_choice: choice, pending_choice: None, pending_since: None }
}

/// The watch after a look at the file, and what that look found.
pub open spec fn polled(watch: ProfileWatch, now: Timestamp, current: Option<Timestamp>) -> (
    ProfileWatch,
    ProfilePoll,
) {
    if current == watch.last_choice {
        (settled(current), ProfilePoll::Unchanged)
    } else if watch.pending_since is None || current != watch.pending_choice {
        (
            ProfileWatch { pending_choice: current, pending_since: Some(now), ..watch },
            ProfilePoll::DebounceStarted,
        )
    } else if !has_passed(watch.pending_since, now, debounce_time()) {
        (watch, ProfilePoll::Waiting)
    } else {
        (settled(current), ProfilePoll::Apply)
    }
}

impl ProfileWatch {
    /// A watch that takes the file as it is.
    pub fn new(choice: Option<Timestamp>) -> (r: Self)
        ensures
            r == settled(choice),
    {
        ProfileWatch { last_choice: choice, pending_choice: None, pending_since: None }
    }

    /// Takes note of the modification time that the file has now.
    pub fn poll(&mut self, now: Timestamp, current: Option<Timestamp>) -> (r: ProfilePoll)
        ensures
            (*final(self), r) == polled(*old(self), now, current),
    {
        if !profile_choice_changed(current, self.last_choice) {
            self.pending_choice = None;
            self.pending_since = None;
            return ProfilePoll::Unchanged;
        }
        if self.pending_since.is_none() || profile_choice_changed(self.pending_choice, current) {
            self.pending_choice = current;
            self.pending_since = Some(now);
            return ProfilePoll::DebounceStarted;
        }
        let debounce = Span { secs: PROFILE_CHANGE_DEBOUNCE_SECS, nanos: 0 };
        if !profile_change_debounce_elapsed(self.pending_since, now, debounce) {
            return ProfilePoll::Waiting;
        }
        self.pending_choice = None;
        self.pending_since = None;
        self.last_choice = current;
        ProfilePoll::Apply
    }
}

/// Only a change that was seen before, and has lasted, is acted on; and then
/// nothing is left waiting.
pub proof fn only_lasting_changes_apply(
    watch: ProfileWatch,
    now: Timestamp,
    current: Option<Timestamp>,
)
    requires
        polled(watch, now, current).1 is Apply,
    ensures
        current != watch.last_choice,
        current == watch.pending_choice,
        watch.pending_since matches Some(since) && now@ - since@ >= debounce_time(),
        polled(watch, now, current).0 == settled(current),
{
}

/// A change is acted on once: the next look at the same file finds nothing.
pub proof fn changes_apply_once(
    watch: ProfileWatch,
    now: Timestamp,
    later: Timestamp,
    current: Option<Timestamp>,
)
    requires
        polled(watch, now, current).1 is Apply,
    ensures
        polled(polled(watch, now, current).0, later, current) == (
            settled(current),
            ProfilePoll::Unchanged,
        ),
{
}

/// A change that is undone before it was acted on is forgotten.
pub proof fn undone_changes_are_forgotten(watch: ProfileWatch, now: Timestamp)
    ensures
        polled(watch, now, watch.last_choice) == (
            settled(watch.last_choice),
            ProfilePoll::Unchanged,
        ),
{
}

/// A new change, the loss of the file included, starts the wait anew; from then on
/// it is acted on at the first look that is late enough, and looks before that
/// change nothing.
pub proof fn new_changes_wait(
    watch: ProfileWatch,
    first: Timestamp,
    later: Timestamp,
    current: Option<Timestamp>,
)
    requires
        current != watch.last_choice,
        watch.pending_since is None || current != watch.pending_choice,
    ensures
        polled(watch, first, current) == (
            ProfileWatch {
                last_choice: watch.last_choice,
                pending_choice: current,
                pending_since: Some(first),
            },
            ProfilePoll::DebounceStarted,
        ),
        ({
            let waiting = polled(watch, first, current).0;
            if later@ - first@ >= debounce_time() {
                polled(waiting, later, current) == (settled(current), ProfilePoll::Apply)
            } else {
                polled(waiting, later, current) == (waiting, ProfilePoll::Waiting)
            }
        }),
{
}

/// A change that waits is acted on at a look two seconds or more after it was first
/// seen, and at no earlier one; the look before leaves the watch as it is.
pub proof fn waiting_changes_apply_after_two_seconds(
    watch: ProfileWatch,
    since: Timestamp,
    now: Timestamp,
)
    requires
        watch.pending_choice != watch.last_choice,
        watch.pending_since == Some(since),
    ensures
        now@ - since@ >= 2_000_000_000 ==> polled(watch, now, watch.pending_choice).1 is Apply
            && polled(watch, now, watch.pending_choice).0.last_choice == watch.pending_choice
            && polled(watch, now, watch.pending_choice).0.pending_since is None,
        now@ - since@ < 2_000_000_000 ==> polled(watch, now, watch.pending_choice) == (
            watch,
            ProfilePoll::Waiting,
        ),
{
}

/// After any look the watch either waits for the time that it saw, or has acted on
/// it and waits for nothing; only acting on a change moves on what was acted on.
pub proof fn looks_are_remembered(watch: ProfileWatch, now: Timestamp, current: Option<Timestamp>)
    ensures
        ({
            let (next, found) = polled(watch, now, current);
            &&& !(found is Apply) ==> next.last_choice == watch.last_choice
            &&& found is Apply || found is Unchanged ==> next.last_choice == current
                && next.pending_choice is None && next.pending_since is None
            &&& found is DebounceStarted || found is Waiting ==> next.last_choice != current
                && next.pending_choice == current && next.pending_since is Some
            &&& found is Unchanged <==> current == watch.last_choice
        }),
{
}

/// Only time that has gone by counts: nothing has passed without a start, and with one
/// just as much has passed as lies between the two points in time.
pub proof fn only_time_gone_by_counts(start: Timestamp, now: Timestamp, wait: nat)
    ensures
        !has_passed(None, now, wait),
        has_passed(Some(start), now, wait) <==> start@ + wait <= now@,
        now@ < start@ ==> !has_passed(Some(start), now, wait),
{
}

} // verus!
