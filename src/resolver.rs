use vstd::prelude::*;
use crate::chord::KeyMap;
use crate::chord::extends_beyond;
use crate::chord_table::ChordTable;
use crate::key::Key;
use crate::keymapper::Mapper;
use crate::mode::Mode;
use crate::revi_command::ReViCommand;

verus! {

/// What one key event resolved to.
#[derive(Debug, Clone, PartialEq, Eq)]
pub enum MatchOutcome {
    /// Nothing to run yet: the chord is incomplete, or a chord attempt was
    /// abandoned without output.
    Pending,
    /// A chord was completed; its commands, in order.
    Matched(Vec<ReViCommand>),
}

impl MatchOutcome {
    /// The commands emitted, if any.
    pub open spec fn commands(&self) -> Option<Seq<ReViCommand>> {
        match self {
            MatchOutcome::Pending => None,
            MatchOutcome::Matched(v) => Some(v@),
        }
    }
}

/// `s` is bound and no longer chord starts with it.
pub open spec fn completes(m: KeyMap, s: Seq<Key>) -> bool {
    m.contains_key(s) && !extends_beyond(m, s)
}

/// `s` is not bound and no bound chord starts with it.
pub open spec fn is_dead_end(m: KeyMap, s: Seq<Key>) -> bool {
    !m.contains_key(s) && !extends_beyond(m, s)
}

/// The buffer that follows `s` and what it emits: a completed chord fires and
/// clears; a chord that a longer one extends is kept; a dead end clears
/// without output.
pub open spec fn settle(m: KeyMap, s: Seq<Key>) -> (Seq<Key>, Option<Seq<ReViCommand>>) {
    if completes(m, s) {
        (Seq::empty(), Some(m[s]))
    } else if extends_beyond(m, s) {
        (s, None)
    } else {
        (Seq::empty(), None)
    }
}

/// One transition of the matcher: `k` extends the buffer `p`; where that is
/// a dead end after earlier keys, they are dropped and `k` starts afresh.
pub open spec fn step(m: KeyMap, p: Seq<Key>, k: Key) -> (Seq<Key>, Option<Seq<ReViCommand>>) {
    if p.len() > 0 && is_dead_end(m, p.push(k)) {
        settle(m, seq![k])
    } else {
        settle(m, p.push(k))
    }
}

/// Feeds `ks` one by one from the buffer `p`: the final buffer and the
/// outcome of each key.
pub open spec fn run(
    m: KeyMap,
    p: Seq<Key>,
    ks: Seq<Key>,
) -> (Seq<Key>, Seq<Option<Seq<ReViCommand>>>)
    decreases ks.len(),
{
    if ks.len() == 0 {
        (p, Seq::empty())
    } else {
        let prev = run(m, p, ks.drop_last());
        let next = step(m, prev.0, ks.last());
        (next.0, prev.1.push(next.1))
    }
}

/// The incremental matcher: the keys received since the last resolution.
pub struct Resolver {
    pending: Vec<Key>,
}

impl View for Resolver {
    type V = Seq<Key>;

    closed spec fn view(&self) -> Seq<Key> {
        self.pending@
    }
}

/// A copy of a command list.
fn copy_commands(v: &Vec<ReViCommand>) -> (r: Vec<ReViCommand>)
    ensures
        r@ == v@,
{
    let mut r: Vec<ReViCommand> = Vec::new();
    let mut i: usize = 0;
    while i < v.len()
        invariant
            i <= v@.len(),
            r@ == v@.subrange(0, i as int),
        decreases v@.len() - i,
    {
        r.push(v[i]);
        i = i + 1;
        assert(r@ =~= v@.subrange(0, i as int));
    }
    assert(v@.subrange(0, v@.len() as int) =~= v@);
    r
}

impl Resolver {
    /// A matcher with an empty buffer.
    pub fn new() -> (r: Resolver)
        ensures
            r@ == Seq::<Key>::empty(),
    {
        Resolver { pending: Vec::new() }
    }

    /// The keys waiting for a chord to complete.
    pub fn pending(&self) -> (r: &[Key])
        ensures
            r@ == self@,
    {
        self.pending.as_slice()
    }

    /// Resolves the current buffer against `table`.
    fn settle(&mut self, table: &ChordTable) -> (r: MatchOutcome)
        requires
            table.wf(),
        ensures
            (final(self)@, r.commands()) == settle(table@, old(self)@),
    {
        if table.has_longer(self.pending.as_slice()) {
            return MatchOutcome::Pending;
        }
        let out = match table.lookup_exact(self.pending.as_slice()) {
            Some(v) => MatchOutcome::Matched(copy_commands(v)),
            None => MatchOutcome::Pending,
        };
        self.pending.clear();
        out
    }

    /// Takes the next key in `mode`. Emits the commands of a chord once it is
    /// complete and no longer chord can follow; keeps buffering while one can.
    /// A dead end drops the buffered keys without output, and the key that
    /// broke the chord is taken again as the start of a new one.
    pub fn feed(&mut self, mapper: &Mapper, mode: &Mode, key: Key) -> (r: MatchOutcome)
        requires
            mapper.wf(),
        ensures
            (final(self)@, r.commands()) == step(mapper.table(*mode), old(self)@, key),
            final(self)@.len() == 0 || extends_beyond(mapper.table(*mode), final(self)@),
    {
        let table = mapper.get_map(mode);
        let fresh = self.pending.len() == 0;
        self.pending.push(key);
        if !fresh && !table.has_longer(self.pending.as_slice())
            && table.lookup_exact(self.pending.as_slice()).is_none() {
            self.pending.clear();
            self.pending.push(key);
            assert(self.pending@ =~= seq![key]);
        }
        self.settle(table)
    }
}

} // verus!
