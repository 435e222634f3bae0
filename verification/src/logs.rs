//! The diagnostic sink: a bounded list of messages for the host to show.
//! It is advisory; nothing in the protocol reads it.

use crate::text::{join, joined};
use vstd::prelude::*;
use vstd::string::StringExecFns;

verus! {

/// The number of messages that the sink keeps.
pub const MAX_LOG_ENTRIES: usize = 500;

/// The latest `capacity` of `entries`, oldest first.
pub open spec fn retained(entries: Seq<Seq<char>>, capacity: nat) -> Seq<Seq<char>> {
    if entries.len() > capacity {
        entries.skip(entries.len() - capacity)
    } else {
        entries
    }
}

/// The sink after one more message.
pub open spec fn logged(entries: Seq<Seq<char>>, msg: Seq<char>) -> Seq<Seq<char>> {
    retained(entries.push(msg), MAX_LOG_ENTRIES as nat)
}

/// The messages that were pushed last, oldest first.
pub struct NativeLogs {
    entries: Vec<String>,
}

impl View for NativeLogs {
    type V = Seq<Seq<char>>;

    closed spec fn view(&self) -> Seq<Seq<char>> {
        self.entries.deep_view()
    }
}

impl NativeLogs {
    /// A sink without messages.
    pub fn new() -> (logs: NativeLogs)
        ensures
            logs@ == Seq::<Seq<char>>::empty(),
    {
        let logs = NativeLogs { entries: Vec::new() };
        logs
    }

    /// The number of messages held.
    pub fn len(&self) -> (n: usize)
        ensures
            n == self@.len(),
    {
        self.entries.len()
    }

    /// The message at position `i`, counted from the oldest.
    pub fn get(&self, i: usize) -> (entry: Option<&str>)
        ensures
            i < self@.len() ==> entry.is_some() && entry.unwrap()@ == self@[i as int],
            i >= self@.len() ==> entry.is_none(),
    {
        if i < self.entries.len() {
            Some(self.entries[i].as_str())
        } else {
            None
        }
    }

    /// All messages, oldest first, one per line.
    pub fn joined_lines(&self) -> (text: String)
        ensures
            text@ == joined(self@, seq!['\n']),
    {
        proof {
            reveal_strlit("\n");
            assert("\n"@ =~= seq!['\n']);
        }
        join(&self.entries, "\n")
    }
}

/// Appends `msg` to the sink and drops the oldest messages beyond
/// `MAX_LOG_ENTRIES`.
pub fn push_log(logs: &mut NativeLogs, msg: &str)
    ensures
        final(logs)@ == logged(old(logs)@, msg@),
        final(logs)@.len() <= MAX_LOG_ENTRIES,
{
    let ghost pushed = old(logs)@.push(msg@);
    logs.entries.push(String::from_str(msg));
    while logs.entries.len() > MAX_LOG_ENTRIES
        invariant
            logs@.len() <= pushed.len(),
            logs@.len() >= MAX_LOG_ENTRIES || logs@.len() == pushed.len(),
            logs@ == pushed.skip(pushed.len() - logs@.len()),
        decreases logs.entries.len(),
    {
        let ghost before = logs@;
        logs.entries.remove(0);
        assert(before.skip(1) =~= pushed.skip(pushed.len() - (before.len() - 1)));
    }
}

} // verus!
