use vstd::prelude::*;
use crate::text::{contains_text, texts};

verus! {

/// Seconds between two polls of the manifest.
pub const POLL_INTERVAL_SECS: u64 = 3;

/// One line of the manifest, with whether its chunk file is on disk.
#[derive(Debug)]
pub struct ManifestEntry {
    pub name: String,
    pub on_disk: bool,
}

/// Each entry as its name's text and its presence on disk.
pub open spec fn entry_views(entries: Seq<ManifestEntry>) -> Seq<(Seq<char>, bool)> {
    Seq::new(entries.len(), |i: int| (entries[i].name@, entries[i].on_disk))
}

/// The dispatch log after one entry was looked at: a name that is on disk
/// and not yet in the log is appended, anything else leaves the log alone.
pub open spec fn observe_entry(log: Seq<Seq<char>>, name: Seq<char>, on_disk: bool) -> Seq<
    Seq<char>,
> {
    if on_disk && !log.contains(name) {
        log.push(name)
    } else {
        log
    }
}

/// The dispatch log after one poll looked at `entries` in manifest order.
pub open spec fn poll_log(log: Seq<Seq<char>>, entries: Seq<(Seq<char>, bool)>) -> Seq<Seq<char>>
    decreases entries.len(),
{
    if entries.len() == 0 {
        log
    } else {
        poll_log(observe_entry(log, entries[0].0, entries[0].1), entries.drop_first())
    }
}

/// The dispatch log after a run of polls, each with the manifest it found.
pub open spec fn live_log(log: Seq<Seq<char>>, polls: Seq<Seq<(Seq<char>, bool)>>) -> Seq<
    Seq<char>,
>
    decreases polls.len(),
{
    if polls.len() == 0 {
        log
    } else {
        live_log(poll_log(log, polls[0]), polls.drop_first())
    }
}

/// `longer` starts with `shorter`.
pub open spec fn extends(longer: Seq<Seq<char>>, shorter: Seq<Seq<char>>) -> bool {
    &&& shorter.len() <= longer.len()
    &&& forall|i: int| 0 <= i < shorter.len() ==> longer[i] == shorter[i]
}

/// Every name of `log` from position `from` on is that of an entry on disk
/// in one of `polls`.
pub open spec fn dispatched_from_polls(
    log: Seq<Seq<char>>,
    from: int,
    polls: Seq<Seq<(Seq<char>, bool)>>,
) -> bool {
    forall|k: int|
        from <= k < log.len() ==> exists|p: int, i: int|
            0 <= p < polls.len() && 0 <= i < polls[p].len() && polls[p][i].1 && #[trigger] log[k]
                == #[trigger] polls[p][i].0
}

/// A poll only appends to the log, keeps it free of repetitions, leaves
/// every entry that is on disk in it, and appends nothing but such entries.
pub proof fn lemma_poll_log(log: Seq<Seq<char>>, entries: Seq<(Seq<char>, bool)>)
    requires
        log.no_duplicates(),
    ensures
        extends(poll_log(log, entries), log),
        poll_log(log, entries).no_duplicates(),
        forall|i: int|
            0 <= i < entries.len() && (#[trigger] entries[i]).1 ==> poll_log(
                log,
                entries,
            ).contains(entries[i].0),
        forall|k: int|
            log.len() <= k < poll_log(log, entries).len() ==> exists|i: int|
                0 <= i < entries.len() && entries[i].1 && #[trigger] poll_log(log, entries)[k]
                    == #[trigger] entries[i].0,
    decreases entries.len(),
{
    if entries.len() > 0 {
        let next = observe_entry(log, entries[0].0, entries[0].1);
        let rest = entries.drop_first();
        let end = poll_log(log, entries);
        lemma_poll_log(next, rest);
        assert forall|i: int| 0 <= i < entries.len() && (#[trigger] entries[i]).1 implies end.contains(
            entries[i].0,
        ) by {
            if i == 0 {
                let at = choose|j: int| 0 <= j < next.len() && next[j] == entries[0].0;
                if log.contains(entries[0].0) {
                } else {
                    assert(next[log.len() as int] == entries[0].0);
                }
                assert(next.contains(entries[0].0));
                assert(end[at] == entries[0].0);
            } else {
                assert(rest[i - 1] == entries[i]);
            }
        }
        assert forall|k: int| log.len() <= k < end.len() implies exists|i: int|
            0 <= i < entries.len() && entries[i].1 && #[trigger] end[k] == #[trigger] entries[i].0 by {
            if k < next.len() {
                assert(end[k] == next[k]);
                assert(entries[0].1 && end[k] == entries[0].0);
            } else {
                let i = choose|i: int|
                    0 <= i < rest.len() && rest[i].1 && #[trigger] end[k] == #[trigger] rest[i].0;
                assert(rest[i] == entries[i + 1]);
                assert(entries[i + 1].1 && end[k] == entries[i + 1].0);
            }
        }
    }
}

/// Over any run of polls of the live phase, started with nothing seen:
/// every name that a poll found in the manifest with its file on disk is
/// dispatched, none is dispatched twice, and nothing else is dispatched.
pub proof fn lemma_live_phase_dispatches_exactly_once(polls: Seq<Seq<(Seq<char>, bool)>>)
    ensures
        live_log(Seq::empty(), polls).no_duplicates(),
        forall|p: int, i: int|
            0 <= p < polls.len() && 0 <= i < polls[p].len() && (#[trigger] polls[p][i]).1
                ==> live_log(Seq::empty(), polls).contains(polls[p][i].0),
        dispatched_from_polls(live_log(Seq::empty(), polls), 0, polls),
{
    lemma_live_log(Seq::empty(), polls);
}

/// The same, started from any log without repetitions; the log only grows.
pub proof fn lemma_live_log(log: Seq<Seq<char>>, polls: Seq<Seq<(Seq<char>, bool)>>)
    requires
        log.no_duplicates(),
    ensures
        extends(live_log(log, polls), log),
        live_log(log, polls).no_duplicates(),
        forall|p: int, i: int|
            0 <= p < polls.len() && 0 <= i < polls[p].len() && (#[trigger] polls[p][i]).1
                ==> live_log(log, polls).contains(polls[p][i].0),
        dispatched_from_polls(live_log(log, polls), log.len() as int, polls),
    decreases polls.len(),
{
    if polls.len() > 0 {
        let next = poll_log(log, polls[0]);
        let rest = polls.drop_first();
        let end = live_log(log, polls);
        lemma_poll_log(log, polls[0]);
        lemma_live_log(next, rest);
        assert forall|p: int, i: int|
            0 <= p < polls.len() && 0 <= i < polls[p].len() && (#[trigger] polls[p][i]).1 implies end.contains(
            polls[p][i].0,
        ) by {
            if p == 0 {
                let at = choose|j: int| 0 <= j < next.len() && next[j] == polls[0][i].0;
                assert(end[at] == polls[0][i].0);
            } else {
                assert(rest[p - 1] == polls[p]);
            }
        }
        assert forall|k: int| log.len() <= k < end.len() implies exists|p: int, i: int|
            0 <= p < polls.len() && 0 <= i < polls[p].len() && polls[p][i].1 && #[trigger] end[k]
                == #[trigger] polls[p][i].0 by {
            if k < next.len() {
                assert(end[k] == next[k]);
                let i = choose|i: int|
                    0 <= i < polls[0].len() && polls[0][i].1 && #[trigger] next[k]
                        == #[trigger] polls[0][i].0;
                assert(polls[0][i].1 && end[k] == polls[0][i].0);
            } else {
                let (p, i) = choose|p: int, i: int|
                    0 <= p < rest.len() && 0 <= i < rest[p].len() && rest[p][i].1 && #[trigger] end[k]
                        == #[trigger] rest[p][i].0;
                assert(rest[p] == polls[p + 1]);
                assert(polls[p + 1][i].1 && end[k] == polls[p + 1][i].0);
            }
        }
    }
}

/// Where a watcher stands.
#[derive(Clone, Copy, Debug, PartialEq, Eq, Structural)]
pub enum WatcherPhase {
    /// The watcher polls the manifest at each tick.
    Polling,
    /// The watcher saw the shutdown flag and has left its loop.
    Stopped,
}

/// The watcher of one stream: its phase and the names it has dispatched.
pub struct ChunkWatcher {
    phase: WatcherPhase,
    seen: Vec<String>,
}

impl ChunkWatcher {
    /// The names dispatched so far, in the order of dispatch.
    pub closed spec fn seen(&self) -> Seq<Seq<char>> {
        texts(self.seen@)
    }

    pub closed spec fn phase(&self) -> WatcherPhase {
        self.phase
    }

    /// No name was dispatched twice.
    #[verifier::type_invariant]
    pub open spec fn well_formed(&self) -> bool {
        self.seen().no_duplicates()
    }

    /// A polling watcher that has seen nothing.
    pub fn new() -> (watcher: Self)
        ensures
            watcher.well_formed(),
            watcher.seen() == Seq::<Seq<char>>::empty(),
            watcher.phase() == WatcherPhase::Polling,
    {
        let watcher = ChunkWatcher { phase: WatcherPhase::Polling, seen: Vec::new() };
        assert(texts(watcher.seen@) =~= Seq::<Seq<char>>::empty());
        watcher
    }

    /// Starts a tick with the shutdown flag as it was just read. A set
    /// flag stops the watcher for good; nothing else does. Returns whether
    /// the watcher goes on to poll.
    pub fn begin_tick(&mut self, shutdown: bool) -> (polling: bool)
        ensures
            final(self).well_formed(),
            final(self).seen() == old(self).seen(),
            final(self).phase() == if shutdown {
                WatcherPhase::Stopped
            } else {
                old(self).phase()
            },
            polling == (final(self).phase() == WatcherPhase::Polling),
    {
        proof {
            use_type_invariant(&*self);
        }
        if shutdown {
            self.phase = WatcherPhase::Stopped;
        }
        match self.phase {
            WatcherPhase::Polling => true,
            WatcherPhase::Stopped => false,
        }
    }

    pub fn is_polling(&self) -> (polling: bool)
        ensures
            polling == (self.phase() == WatcherPhase::Polling),
    {
        match self.phase {
            WatcherPhase::Polling => true,
            WatcherPhase::Stopped => false,
        }
    }

    /// Whether `name` was dispatched before.
    pub fn has_seen(&self, name: &String) -> (found: bool)
        ensures
            found == self.seen().contains(name@),
    {
        contains_text(&self.seen, name)
    }

    /// How many names were dispatched so far.
    pub fn seen_count(&self) -> (count: usize)
        ensures
            count == self.seen().len(),
            self.well_formed(),
    {
        proof {
            use_type_invariant(self);
        }
        self.seen.len()
    }

    /// Looks at one manifest entry. Returns whether its chunk is to be
    /// dispatched now: the file is on disk and the name is new. A stopped
    /// watcher dispatches nothing.
    pub fn observe(&mut self, name: &String, on_disk: bool) -> (dispatch: bool)
        ensures
            final(self).well_formed(),
            final(self).phase() == old(self).phase(),
            dispatch == (old(self).phase() == WatcherPhase::Polling && on_disk && !old(
                self,
            ).seen().contains(name@)),
            final(self).seen() == if old(self).phase() == WatcherPhase::Polling {
                observe_entry(old(self).seen(), name@, on_disk)
            } else {
                old(self).seen()
            },
    {
        proof {
            use_type_invariant(&*self);
        }
        let polling = match self.phase {
            WatcherPhase::Polling => true,
            WatcherPhase::Stopped => false,
        };
        if polling && on_disk && !contains_text(&self.seen, name) {
            // The list is taken out, extended and put back as a whole, so
            // that the watcher is well formed at every step.
            let mut taken = ChunkWatcher { phase: self.phase, seen: Vec::new() };
            assert(texts(taken.seen@) =~= Seq::<Seq<char>>::empty());
            core::mem::swap(self, &mut taken);
            let ChunkWatcher { phase, seen: mut list } = taken;
            list.push(name.clone());
            assert(texts(list@) =~= texts(old(self).seen@).push(name@));
            *self = ChunkWatcher { phase, seen: list };
            true
        } else {
            false
        }
    }

    /// Takes in the manifest as one poll found it and returns the names to
    /// dispatch, in manifest order: those on disk that were not dispatched
    /// before, each once. A stopped watcher dispatches nothing.
    pub fn poll(&mut self, entries: &Vec<ManifestEntry>) -> (dispatched: Vec<String>)
        ensures
            final(self).well_formed(),
            final(self).phase() == old(self).phase(),
            final(self).seen() == if old(self).phase() == WatcherPhase::Polling {
                poll_log(old(self).seen(), entry_views(entries@))
            } else {
                old(self).seen()
            },
            extends(final(self).seen(), old(self).seen()),
            texts(dispatched@) == final(self).seen().subrange(
                old(self).seen().len() as int,
                final(self).seen().len() as int,
            ),
    {
        proof {
            use_type_invariant(&*self);
        }
        let ghost views = entry_views(entries@);
        let ghost start = self.seen();
        let mut dispatched: Vec<String> = Vec::new();
        let mut i: usize = 0;
        assert(views.subrange(0, views.len() as int) =~= views);
        while i < entries.len()
            invariant
                i <= entries.len(),
                views == entry_views(entries@),
                start == old(self).seen(),
                self.well_formed(),
                self.phase() == old(self).phase(),
                extends(self.seen(), start),
                self.phase() == WatcherPhase::Polling ==> poll_log(
                    self.seen(),
                    views.subrange(i as int, views.len() as int),
                ) == poll_log(start, views),
                self.phase() != WatcherPhase::Polling ==> self.seen() == start,
                texts(dispatched@) =~= self.seen().subrange(
                    start.len() as int,
                    self.seen().len() as int,
                ),
            decreases entries.len() - i,
        {
            let ghost before = self.seen();
            let ghost tail = views.subrange(i as int, views.len() as int);
            let entry = &entries[i];
            assert(tail[0] == (entry.name@, entry.on_disk));
            assert(tail.drop_first() =~= views.subrange(i + 1, views.len() as int));
            let ghost sent = texts(dispatched@);
            if self.observe(&entry.name, entry.on_disk) {
                dispatched.push(entry.name.clone());
                assert(texts(dispatched@) =~= sent.push(entry.name@));
                assert(self.seen() =~= before.push(entry.name@));
            }
            i += 1;
        }
        assert(views.subrange(i as int, views.len() as int) =~= Seq::<(Seq<char>, bool)>::empty());
        dispatched
    }
}

} // verus!
