//! The history store: a deduplicated command log for recall and typeahead,
//! and a clearable buffer of timestamped entries for the visible transcript.

use vstd::prelude::*;

verus! {

/// One executed line, timestamped for transcript display.
#[derive(Debug)]
pub struct Entry {
    timestamp: u64,
    pub input: String,
}

/// Relies on std::time::SystemTime::now for the wall clock. Nothing is
/// assumed of the value it returns.
#[verifier::external_body]
fn now_seconds() -> u64 {
    std::time::SystemTime::now()
        .duration_since(std::time::UNIX_EPOCH)
        .unwrap_or_default()
        .as_secs()
}

impl Clone for Entry {
    fn clone(&self) -> (r: Self)
        ensures
            r == *self,
    {
        Entry { timestamp: self.timestamp, input: self.input.clone() }
    }
}

impl Entry {
    /// The moment this entry was recorded, as an opaque identifier.
    pub closed spec fn spec_id(&self) -> u64 {
        self.timestamp
    }

    /// The recorded line, as a character sequence.
    pub closed spec fn input_view(&self) -> Seq<char> {
        self.input@
    }

    pub fn new(input: String) -> (e: Entry)
        ensures
            e.input_view() == input@,
    {
        Entry { timestamp: now_seconds(), input }
    }

    pub fn id(&self) -> (r: u64)
        ensures
            r == self.spec_id(),
    {
        self.timestamp
    }
}

/// The two parallel logs behind the shell transcript.
#[derive(Debug)]
pub struct History {
    /// A persistent, dedup-on-push command history (no consecutive duplicates).
    commands: Vec<String>,
    /// A temporary, clearable store for timestamped history entries.
    buffer: Vec<Entry>,
}

/// What pushing `x` does to the command log: appended unless it repeats the
/// last stored command.
pub open spec fn push_dedup(cs: Seq<Seq<char>>, x: Seq<char>) -> Seq<Seq<char>> {
    if cs.len() > 0 && cs.last() == x {
        cs
    } else {
        cs.push(x)
    }
}

impl Clone for History {
    fn clone(&self) -> (r: Self)
        ensures
            r.commands_view() == self.commands_view(),
            r.buffer_view() == self.buffer_view(),
    {
        let commands = self.commands.clone();
        let buffer = self.buffer.clone();
        proof {
            assert(commands@ =~= self.commands@);
            assert(buffer@ =~= self.buffer@);
        }
        History { commands, buffer }
    }
}

impl History {
    /// The command log, as a sequence of character sequences.
    pub closed spec fn commands_view(&self) -> Seq<Seq<char>> {
        self.commands.deep_view()
    }

    /// The transcript buffer.
    pub closed spec fn buffer_view(&self) -> Seq<Entry> {
        self.buffer@
    }

    /// The command log never holds two adjacent equal commands.
    pub open spec fn wf(&self) -> bool {
        forall|i: int|
            0 <= i && i + 1 < self.commands_view().len() ==> #[trigger] self.commands_view()[i]
                != self.commands_view()[i + 1]
    }

    pub fn new() -> (h: History)
        ensures
            h.commands_view() == Seq::<Seq<char>>::empty(),
            h.buffer_view() == Seq::<Entry>::empty(),
            h.wf(),
    {
        let h = History { commands: Vec::new(), buffer: Vec::new() };
        proof {
            assert(h.commands_view() =~= Seq::<Seq<char>>::empty());
            assert(h.buffer_view() =~= Seq::<Entry>::empty());
        }
        h
    }

    /// Appends an entry to the buffer unconditionally, and to the command log
    /// only when it differs from the last stored command.
    pub fn push(&mut self, input: &str)
        requires
            old(self).wf(),
        ensures
            final(self).wf(),
            final(self).commands_view() == push_dedup(old(self).commands_view(), input@),
            final(self).buffer_view().len() == old(self).buffer_view().len() + 1,
            final(self).buffer_view().drop_last() == old(self).buffer_view(),
            final(self).buffer_view().last().input_view() == input@,
    {
        let owned = input.to_owned();
        self.buffer.push(Entry::new(owned));

        let ghost old_cs = self.commands_view();
        let len = self.commands.len();
        let dup: bool;
        if len == 0 {
            dup = false;
        } else {
            let last = &self.commands[len - 1];
            dup = crate::strutil::str_eq(last.as_str(), input);
            proof {
                assert(last@ == old_cs[len - 1]);
            }
        }
        proof {
            assert(dup == (old_cs.len() > 0 && old_cs.last() == input@));
        }
        if !dup {
            self.commands.push(input.to_owned());
            proof {
                assert(self.commands_view() =~= old_cs.push(input@));
                let ns = self.commands_view();
                assert forall|i: int| 0 <= i && i + 1 < ns.len() implies #[trigger] ns[i] != ns[i
                    + 1] by {
                    if i + 1 < old_cs.len() {
                        assert(old(self).commands_view()[i] != old(self).commands_view()[i + 1]);
                        assert(ns[i] == old_cs[i]);
                        assert(ns[i + 1] == old_cs[i + 1]);
                    } else {
                        assert(ns[i] == old_cs[i]);
                        assert(ns[i + 1] == input@);
                    }
                }
            }
        } else {
            proof {
                let ns = self.commands_view();
                assert forall|i: int| 0 <= i && i + 1 < ns.len() implies #[trigger] ns[i] != ns[i
                    + 1] by {
                    assert(old(self).commands_view()[i] != old(self).commands_view()[i + 1]);
                }
            }
        }
        proof {
            assert(self.buffer_view().drop_last() =~= old(self).buffer_view());
        }
    }

    /// Empties the transcript buffer; the command log is untouched.
    pub fn clear(&mut self)
        ensures
            final(self).commands_view() == old(self).commands_view(),
            final(self).buffer_view() == Seq::<Entry>::empty(),
            old(self).wf() ==> final(self).wf(),
    {
        self.buffer.clear();
        proof {
            assert(self.buffer_view() =~= Seq::<Entry>::empty());
        }
    }

    pub fn commands(&self) -> (r: &Vec<String>)
        ensures
            r.deep_view() == self.commands_view(),
    {
        &self.commands
    }

    pub fn buffer(&self) -> (r: &Vec<Entry>)
        ensures
            r@ == self.buffer_view(),
    {
        &self.buffer
    }
}

/// What history recall yields at `idx`: the command there, or the empty
/// string at the fresh-line position past the end.
pub open spec fn recall_value(cs: Seq<Seq<char>>, idx: int) -> Seq<char> {
    if 0 <= idx < cs.len() {
        cs[idx]
    } else {
        Seq::empty()
    }
}

/// One step back through the command log: the index saturates at 0.
pub fn prev(current: usize, history: &History) -> (r: (usize, String))
    ensures
        r.0 == if current > 0 {
            current - 1
        } else {
            0int
        },
        r.1@ == recall_value(history.commands_view(), r.0 as int),
{
    let idx = if current > 0 {
        current - 1
    } else {
        0
    };
    let cs = history.commands();
    let value = if idx < cs.len() {
        proof {
            assert(cs.deep_view()[idx as int] == cs@[idx as int]@);
        }
        cs[idx].clone()
    } else {
        String::new()
    };
    (idx, value)
}

/// One step forward through the command log: the index clamps to the length,
/// where recall yields the empty fresh line.
pub fn next(current: usize, history: &History) -> (r: (usize, String))
    ensures
        r.0 == vstd::math::min(current as int + 1, history.commands_view().len() as int),
        r.1@ == recall_value(history.commands_view(), r.0 as int),
{
    let cs = history.commands();
    let idx = if current < cs.len() {
        current + 1
    } else {
        cs.len()
    };
    let value = if idx < cs.len() {
        proof {
            assert(cs.deep_view()[idx as int] == cs@[idx as int]@);
        }
        cs[idx].clone()
    } else {
        String::new()
    };
    (idx, value)
}

} // verus!
