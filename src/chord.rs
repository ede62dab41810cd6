use vstd::prelude::*;
use crate::key::Key;
use crate::revi_command::ReViCommand;

verus! {

/// What a chord table binds: each chord to its commands, in order.
pub type KeyMap = Map<Seq<Key>, Seq<ReViCommand>>;

/// A chord as bound in a table, with the commands it triggers.
pub type Entry = (Seq<Key>, Seq<ReViCommand>);

/// `p` is a prefix of `c` (equal to `c` included).
pub open spec fn is_prefix(p: Seq<Key>, c: Seq<Key>) -> bool {
    p.len() <= c.len() && c.subrange(0, p.len() as int) == p
}

/// Some chord bound in `m` starts with `p`, or is `p` itself.
pub open spec fn has_prefix_in(m: KeyMap, p: Seq<Key>) -> bool {
    exists|c: Seq<Key>| #[trigger] m.contains_key(c) && is_prefix(p, c)
}

/// Some chord bound in `m` is strictly longer than `p` and starts with it.
pub open spec fn extends_beyond(m: KeyMap, p: Seq<Key>) -> bool {
    exists|c: Seq<Key>| #[trigger] m.contains_key(c) && p.len() < c.len() && is_prefix(p, c)
}

/// The table that a list of entries describes: a later entry for a chord
/// replaces an earlier one.
pub open spec fn map_of(s: Seq<Entry>) -> KeyMap
    decreases s.len(),
{
    if s.len() == 0 {
        Map::empty()
    } else {
        map_of(s.drop_last()).insert(s.last().0, s.last().1)
    }
}

/// No chord occurs in two entries.
pub open spec fn chords_unique(s: Seq<Entry>) -> bool {
    forall|i: int, j: int| 0 <= i < j < s.len() ==> s[i].0 != s[j].0
}

/// The chords bound by `map_of(s)` are exactly those of the entries.
pub proof fn lemma_map_of_domain(s: Seq<Entry>, c: Seq<Key>)
    ensures
        map_of(s).contains_key(c) <==> exists|i: int| 0 <= i < s.len() && (#[trigger] s[i]).0 == c,
    decreases s.len(),
{
    if s.len() > 0 {
        let d = s.drop_last();
        lemma_map_of_domain(d, c);
        if map_of(d).contains_key(c) {
            let i = choose|i: int| 0 <= i < d.len() && (#[trigger] d[i]).0 == c;
            assert(s[i] == d[i]);
        }
        if exists|i: int| 0 <= i < s.len() && (#[trigger] s[i]).0 == c {
            let i = choose|i: int| 0 <= i < s.len() && (#[trigger] s[i]).0 == c;
            if i < s.len() - 1 {
                assert(d[i] == s[i]);
            }
        }
    }
}

/// With unique chords, each entry gives the commands of its chord.
pub proof fn lemma_map_of_at(s: Seq<Entry>, i: int)
    requires
        chords_unique(s),
        0 <= i < s.len(),
    ensures
        map_of(s).contains_key(s[i].0),
        map_of(s)[s[i].0] == s[i].1,
    decreases s.len(),
{
    let d = s.drop_last();
    if i < s.len() - 1 {
        assert(d[i] == s[i]);
        lemma_map_of_at(d, i);
    }
}

/// Replacing the commands of an entry, with unique chords, rebinds its chord.
pub proof fn lemma_map_of_update(s: Seq<Entry>, i: int, v: Seq<ReViCommand>)
    requires
        chords_unique(s),
        0 <= i < s.len(),
    ensures
        map_of(s.update(i, (s[i].0, v))) == map_of(s).insert(s[i].0, v),
    decreases s.len(),
{
    let k = s[i].0;
    let u = s.update(i, (k, v));
    let d = s.drop_last();
    if i == s.len() - 1 {
        assert(u.drop_last() == d);
        assert(map_of(u) =~= map_of(s).insert(k, v));
    } else {
        assert(u.drop_last() =~= d.update(i, (k, v)));
        assert(d[i] == s[i]);
        lemma_map_of_update(d, i, v);
        assert(s.last().0 != k);
        assert(map_of(u) =~= map_of(s).insert(k, v));
    }
}

/// Appending an entry binds its chord.
pub proof fn lemma_map_of_push(s: Seq<Entry>, e: Entry)
    ensures
        map_of(s.push(e)) == map_of(s).insert(e.0, e.1),
{
    assert(s.push(e).drop_last() =~= s);
}

/// Whether `p` is a prefix of `c` (or equal to it).
pub fn starts_with(c: &[Key], p: &[Key]) -> (r: bool)
    ensures
        r == is_prefix(p@, c@),
{
    if p.len() > c.len() {
        return false;
    }
    let mut i: usize = 0;
    while i < p.len()
        invariant
            p@.len() <= c@.len(),
            i <= p@.len(),
            forall|j: int| 0 <= j < i ==> c@[j] == p@[j],
        decreases p@.len() - i,
    {
        if c[i] != p[i] {
            assert(c@.subrange(0, p@.len() as int)[i as int] != p@[i as int]);
            return false;
        }
        i = i + 1;
    }
    assert(c@.subrange(0, p@.len() as int) =~= p@);
    true
}

/// Whether two chords are the same key sequence.
pub fn same_chord(a: &[Key], b: &[Key]) -> (r: bool)
    ensures
        r == (a@ == b@),
{
    if a.len() != b.len() {
        return false;
    }
    let r = starts_with(a, b);
    assert(a@.subrange(0, b@.len() as int) =~= a@);
    r
}

} // verus!
