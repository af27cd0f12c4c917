//! Command history: the last commands entered, with up/down navigation. The
//! history may be backed by a file; reading it and appending to it is the
//! caller's I/O, and the functions here decide what is kept and what is
//! written.
use vstd::prelude::*;
use crate::text::{is_blank, lines_of, lines_spec, str_is_blank, views};

verus! {

/// The most entries a history keeps; older ones are dropped first.
pub const MAX_ENTRIES: usize = 1000;

/// The entries after recording a command: a blank command is not recorded,
/// and past the limit the oldest entry is dropped.
pub open spec fn pushed(entries: Seq<Seq<char>>, command: Seq<char>) -> Seq<Seq<char>> {
    if is_blank(command) {
        entries
    } else if entries.len() + 1 > MAX_ENTRIES {
        entries.push(command).drop_first()
    } else {
        entries.push(command)
    }
}

/// The non-blank lines of a history file's contents.
pub open spec fn stored_lines(contents: Seq<char>) -> Seq<Seq<char>> {
    lines_spec(contents).filter(|l: Seq<char>| !is_blank(l))
}

/// The entries loaded from a history file: its non-blank lines, the newest
/// `MAX_ENTRIES` of them.
pub open spec fn loaded(contents: Seq<char>) -> Seq<Seq<char>> {
    let lines = stored_lines(contents);
    if lines.len() > MAX_ENTRIES {
        lines.subrange(lines.len() - MAX_ENTRIES, lines.len() as int)
    } else {
        lines
    }
}

/// Where `previous` moves the navigation cursor: one entry older, from the
/// newest edge when not navigating, stopping at the oldest entry.
pub open spec fn previous_position(len: nat, cursor: Option<nat>) -> nat {
    let from = match cursor {
        Some(c) => c,
        None => len,
    };
    if from == 0 { 0 } else { (from - 1) as nat }
}

/// Command history with an optional persistent backing file.
#[derive(Debug)]
pub struct History {
    entries: Vec<String>,
    cursor: Option<usize>,
    path: Option<String>,
}

impl History {
    #[verifier::type_invariant]
    spec fn bounded(self) -> bool {
        &&& self.entries@.len() <= MAX_ENTRIES
        &&& self.cursor matches Some(c) ==> c < self.entries@.len()
    }

    /// The recorded entries, oldest first.
    pub closed spec fn items(self) -> Seq<Seq<char>> {
        views(self.entries@)
    }

    /// The navigation cursor: the entry last recalled, if navigating.
    pub closed spec fn position(self) -> Option<nat> {
        match self.cursor {
            Some(c) => Some(c as nat),
            None => None,
        }
    }

    /// The backing file, if any.
    pub closed spec fn file(self) -> Option<Seq<char>> {
        match self.path {
            Some(p) => Some(p@),
            None => None,
        }
    }

    /// Create an empty history with no backing file.
    pub fn new() -> (r: Self)
        ensures
            r.items() == Seq::<Seq<char>>::empty(),
            r.position() is None,
            r.file() is None,
    {
        let r = History { entries: Vec::new(), cursor: None, path: None };
        proof {
            assert(r.items() =~= Seq::<Seq<char>>::empty());
        }
        r
    }

    /// A history backed by the file at `path`, whose contents were read as
    /// `contents` (empty when the file does not exist yet).
    pub fn load(path: &str, contents: &str) -> (r: Self)
        ensures
            r.items() == loaded(contents@),
            r.position() is None,
            r.file() == Some(path@),
    {
        let lines = lines_of(contents);
        let ghost all = lines_spec(contents@);
        let ghost keep = |l: Seq<char>| !is_blank(l);
        let mut kept: Vec<String> = Vec::new();
        let mut i: usize = 0;
        while i < lines.len()
            invariant
                i <= lines@.len(),
                lines@.len() == all.len(),
                all == lines_spec(contents@),
                keep == (|l: Seq<char>| !is_blank(l)),
                forall|k: int| 0 <= k < lines@.len() ==> (#[trigger] lines@[k])@ == all[k],
                views(kept@) == all.subrange(0, i as int).filter(keep),
            decreases lines@.len() - i,
        {
            proof {
                reveal(Seq::filter);
                assert(all.subrange(0, i + 1).drop_last() =~= all.subrange(0, i as int));
            }
            if !str_is_blank(lines[i].as_str()) {
                kept.push(lines[i].clone());
                proof {
                    assert(views(kept@) =~= all.subrange(0, i as int).filter(keep).push(all[i as int]));
                }
            }
            i = i + 1;
        }
        proof {
            assert(all.subrange(0, all.len() as int) =~= all);
        }
        let n = kept.len();
        let start = if n > MAX_ENTRIES { n - MAX_ENTRIES } else { 0 };
        let mut entries: Vec<String> = Vec::new();
        let mut j: usize = start;
        while j < n
            invariant
                start <= j <= n,
                n == kept@.len(),
                views(entries@) == views(kept@).subrange(start as int, j as int),
            decreases n - j,
        {
            let ghost prev = entries@;
            entries.push(kept[j].clone());
            proof {
                let target = views(kept@).subrange(start as int, j + 1);
                assert(views(prev) =~= target.drop_last());
                assert forall|k: int| 0 <= k < entries@.len() implies (#[trigger] views(entries@)[k]) == target[k] by {
                    if k < prev.len() {
                        assert(entries@[k] == prev[k]);
                        assert(views(prev)[k] == target.drop_last()[k]);
                    }
                }
                assert(views(entries@) =~= target);
            }
            j = j + 1;
        }
        let r = History { entries, cursor: None, path: Some(String::from_str(path)) };
        proof {
            let lines = stored_lines(contents@);
            assert(views(kept@) == lines);
            if n > MAX_ENTRIES {
                assert(r.items() =~= lines.subrange(lines.len() - MAX_ENTRIES, lines.len() as int));
            } else {
                assert(r.items() =~= lines);
            }
        }
        r
    }

    /// Add a non-blank command and reset navigation. Returns the line to
    /// append to the backing file: the command, when it was recorded and the
    /// history has a file.
    pub fn push(&mut self, command: String) -> (persist: Option<String>)
        ensures
            final(self).items() == pushed(old(self).items(), command@),
            final(self).position() is None,
            final(self).file() == old(self).file(),
            persist matches Some(line) ==> line@ == command@,
            persist is Some <==> (!is_blank(command@) && old(self).file() is Some),
    {
        proof {
            use_type_invariant(&*self);
        }
        let ghost before = self.items();
        let blank = str_is_blank(command.as_str());
        let mut entries = self.entries.clone();
        proof {
            assert(views(entries@) =~= before) by {
                assert forall|k: int| 0 <= k < entries@.len() implies (#[trigger] entries@[k])@ == before[k] by {
                    assert(cloned::<String>(self.entries@[k], entries@[k]));
                }
            }
        }
        let mut persist: Option<String> = None;
        if !blank {
            let has_file = self.path.is_some();
            if has_file {
                persist = Some(command.clone());
            }
            entries.push(command);
            proof {
                assert(views(entries@) =~= before.push(command@));
            }
            if entries.len() > MAX_ENTRIES {
                entries.remove(0);
                proof {
                    assert(views(entries@) =~= before.push(command@).drop_first());
                }
            }
        }
        let path = match &self.path {
            Some(p) => Some(p.clone()),
            None => None,
        };
        *self = History { entries, cursor: None, path };
        persist
    }

    /// Return the recorded entries, oldest first.
    pub fn entries(&self) -> (r: &[String])
        ensures
            views(r@) == self.items(),
    {
        self.entries.as_slice()
    }

    /// Move backward through history: recall the entry before the one last
    /// recalled (the newest when not navigating), stopping at the oldest.
    /// An empty history recalls nothing.
    pub fn previous(&mut self) -> (r: Option<String>)
        ensures
            old(self).items().len() == 0 ==> r is None && *final(self) == *old(self),
            old(self).items().len() > 0 ==> {
                let p = previous_position(old(self).items().len(), old(self).position());
                &&& final(self).position() == Some(p)
                &&& r matches Some(e) && e@ == old(self).items()[p as int]
            },
            final(self).items() == old(self).items(),
            final(self).file() == old(self).file(),
    {
        proof {
            use_type_invariant(&*self);
        }
        if self.entries.len() == 0 {
            return None;
        }
        let from = match self.cursor {
            Some(c) => c,
            None => self.entries.len(),
        };
        let p = if from == 0 { 0 } else { from - 1 };
        let recalled = self.entries[p].clone();
        self.set_cursor(Some(p));
        Some(recalled)
    }

    /// Move forward through history, returning an empty line past the newest
    /// entry; when not navigating there is nothing to recall.
    pub fn next(&mut self) -> (r: Option<String>)
        ensures
            old(self).position() is None ==> r is None && *final(self) == *old(self),
            old(self).position() matches Some(c) ==> {
                if c + 1 >= old(self).items().len() {
                    &&& final(self).position() is None
                    &&& r matches Some(e) && e@ == Seq::<char>::empty()
                } else {
                    &&& final(self).position() == Some((c + 1) as nat)
                    &&& r matches Some(e) && e@ == old(self).items()[(c + 1) as int]
                }
            },
            final(self).items() == old(self).items(),
            final(self).file() == old(self).file(),
    {
        proof {
            use_type_invariant(&*self);
        }
        let c = match self.cursor {
            Some(c) => c,
            None => {
                return None;
            },
        };
        if c + 1 >= self.entries.len() {
            self.set_cursor(None);
            return Some(String::new());
        }
        let recalled = self.entries[c + 1].clone();
        self.set_cursor(Some(c + 1));
        Some(recalled)
    }

    /// Moves the navigation cursor, keeping the entries and the file.
    fn set_cursor(&mut self, cursor: Option<usize>)
        requires
            cursor matches Some(c) ==> c < old(self).items().len(),
        ensures
            final(self).items() == old(self).items(),
            final(self).file() == old(self).file(),
            final(self).position() == (match cursor {
                Some(c) => Some(c as nat),
                None => None::<nat>,
            }),
    {
        proof {
            use_type_invariant(&*self);
        }
        let mut previous = History::new();
        std::mem::swap(&mut previous, self);
        *self = History { entries: previous.entries, cursor, path: previous.path };
    }
}

impl Default for History {
    fn default() -> (r: Self)
        ensures
            r.items() == Seq::<Seq<char>>::empty(),
            r.position() is None,
            r.file() is None,
    {
        History::new()
    }
}

/// After a non-blank command is recorded, the first step back recalls it.
pub proof fn lemma_previous_recalls_last_push(entries: Seq<Seq<char>>, command: Seq<char>)
    requires
        entries.len() <= MAX_ENTRIES,
        !is_blank(command),
    ensures
        ({
            let e = pushed(entries, command);
            e.len() > 0 && e[previous_position(e.len(), None) as int] == command
        }),
{
}

/// The history never holds more than `MAX_ENTRIES` entries, and recording a
/// command keeps the newest ones in order.
pub proof fn lemma_pushed_bounded(entries: Seq<Seq<char>>, command: Seq<char>)
    requires
        entries.len() <= MAX_ENTRIES,
    ensures
        pushed(entries, command).len() <= MAX_ENTRIES,
        !is_blank(command) ==> pushed(entries, command).last() == command,
{
}

} // verus!
