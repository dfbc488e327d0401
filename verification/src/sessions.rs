//! The terminals of all connections that run, each under the id of its tab.

use std::collections::HashMap;

use vstd::prelude::*;

use crate::screen::{session_text, TerminalSession};

verus! {

broadcast use vstd::std_specs::hash::group_hash_axioms;

/// The terminals, by tab. The view maps each tab to the output that its terminal
/// was given.
pub struct TerminalSessions {
    map: HashMap<u64, TerminalSession>,
}

impl View for TerminalSessions {
    type V = Map<u64, Seq<u8>>;

    closed spec fn view(&self) -> Map<u64, Seq<u8>> {
        self.map@.map_values(|s: TerminalSession| s@)
    }
}

/// The terminals after `bytes` came for `tab_id`: its terminal is given them, and
/// where it has none they are dropped.
pub open spec fn fed(sessions: Map<u64, Seq<u8>>, tab_id: u64, bytes: Seq<u8>) -> Map<
    u64,
    Seq<u8>,
> {
    if sessions.dom().contains(tab_id) {
        sessions.insert(tab_id, sessions[tab_id] + bytes)
    } else {
        sessions
    }
}

impl TerminalSessions {
    /// No terminals.
    pub fn new() -> (r: Self)
        ensures
            r@ == Map::<u64, Seq<u8>>::empty(),
    {
        let r = TerminalSessions { map: HashMap::new() };
        assert(r@ =~= Map::empty());
        r
    }

    /// Whether no terminal is there.
    pub fn is_empty(&self) -> (r: bool)
        ensures
            r == (self@ == Map::<u64, Seq<u8>>::empty()),
    {
        let r = self.map.is_empty();
        proof {
            if r {
                assert(self@ =~= Map::empty());
            } else {
                assert(self@.dom() =~= self.map@.dom());
                if self@ == Map::<u64, Seq<u8>>::empty() {
                    assert(self.map@ =~= Map::empty());
                }
            }
        }
        r
    }

    /// Gives a tab a new terminal.
    pub fn open(&mut self, tab_id: u64)
        ensures
            final(self)@ == old(self)@.insert(tab_id, Seq::empty()),
    {
        let ghost before = self@;
        self.map.insert(tab_id, TerminalSession::new());
        assert(self@ =~= before.insert(tab_id, Seq::empty()));
    }

    /// Takes a tab's terminal away.
    pub fn close(&mut self, tab_id: u64)
        ensures
            final(self)@ == old(self)@.remove(tab_id),
    {
        let ghost before = self@;
        self.map.remove(&tab_id);
        assert(self@ =~= before.remove(tab_id));
    }

    /// Gives a tab's terminal more output, if it has one.
    pub fn feed(&mut self, tab_id: u64, bytes: &[u8])
        ensures
            final(self)@ == fed(old(self)@, tab_id, bytes@),
    {
        let ghost before = self@;
        if let Some(session) = self.map.remove(&tab_id) {
            self.map.insert(tab_id, session.process(bytes));
        }
        assert(self@ =~= fed(before, tab_id, bytes@));
    }

    /// The text on a tab's terminal, if it has one.
    pub fn text(&self, tab_id: u64, show_cursor: bool) -> (r: Option<String>)
        ensures
            if self@.dom().contains(tab_id) {
                r matches Some(text) && text@ == session_text(self@[tab_id], show_cursor)
            } else {
                r is None
            },
    {
        match self.map.get(&tab_id) {
            Some(session) => Some(session.text(show_cursor)),
            None => None,
        }
    }
}

/// What a tab's terminal is given changes no other terminal, and neither opens nor
/// closes one; in two parts it has the effect of the two put together.
pub proof fn output_stays_in_its_tab(
    sessions: Map<u64, Seq<u8>>,
    tab_id: u64,
    other: u64,
    first: Seq<u8>,
    second: Seq<u8>,
)
    ensures
        fed(sessions, tab_id, first).dom() == sessions.dom(),
        other != tab_id ==> fed(sessions, tab_id, first)[other] == sessions[other],
        fed(fed(sessions, tab_id, first), tab_id, second) == fed(sessions, tab_id, first + second),
{
    assert(fed(sessions, tab_id, first).dom() =~= sessions.dom());
    assert(sessions[tab_id] + first + second =~= sessions[tab_id] + (first + second));
    assert(fed(fed(sessions, tab_id, first), tab_id, second) =~= fed(
        sessions,
        tab_id,
        first + second,
    ));
}

/// A terminal that is given more output has been given what it was given before,
/// followed by that; a tab without one gets none.
pub proof fn output_is_added_at_the_end(
    sessions: Map<u64, Seq<u8>>,
    tab_id: u64,
    bytes: Seq<u8>,
)
    ensures
        sessions.dom().contains(tab_id) ==> fed(sessions, tab_id, bytes)[tab_id]
            == sessions[tab_id] + bytes,
        !sessions.dom().contains(tab_id) ==> fed(sessions, tab_id, bytes) == sessions,
{
}

} // verus!
