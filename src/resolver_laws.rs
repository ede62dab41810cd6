use vstd::prelude::*;
use crate::chord::KeyMap;
use crate::chord::{extends_beyond, has_prefix_in, is_prefix};
use crate::key::Key;
use crate::keymapper::Mapper;
use crate::mode::Mode;
use crate::resolver::{is_dead_end, run, settle, step};
use crate::revi_command::ReViCommand;

verus! {

/// `n` outcomes without output.
pub open spec fn nothing(n: nat) -> Seq<Option<Seq<ReViCommand>>> {
    Seq::new(n, |i: int| None)
}

/// Some chord of `m` is bound to exactly `v`.
pub open spec fn is_bound_value(m: KeyMap, v: Seq<ReViCommand>) -> bool {
    exists|c: Seq<Key>| #[trigger] m.contains_key(c) && m[c] == v
}

proof fn lemma_extends_drop_last(m: KeyMap, ks: Seq<Key>)
    requires
        ks.len() > 0,
        extends_beyond(m, ks),
    ensures
        extends_beyond(m, ks.drop_last()),
{
    let c = choose|c: Seq<Key>| #[trigger] m.contains_key(c) && ks.len() < c.len() && is_prefix(ks, c);
    assert(c.subrange(0, ks.len() - 1) =~= ks.drop_last()) by {
        assert(c.subrange(0, ks.len() as int) == ks);
        assert forall|i: int| 0 <= i < ks.len() - 1 implies c.subrange(0, ks.len() - 1)[i] == ks.drop_last()[i] by {
            assert(c.subrange(0, ks.len() as int)[i] == ks[i]);
        }
    }
    assert(m.contains_key(c) && ks.drop_last().len() < c.len() && is_prefix(ks.drop_last(), c));
}

/// While some bound chord is longer than the keys typed so far and starts with
/// them, every key is held back: nothing is emitted and the buffer holds them all.
pub proof fn lemma_extendable_keys_pend(m: KeyMap, ks: Seq<Key>)
    requires
        extends_beyond(m, ks),
    ensures
        run(m, Seq::empty(), ks) == (ks, nothing(ks.len())),
    decreases ks.len(),
{
    if ks.len() == 0 {
        assert(nothing(0) =~= Seq::empty());
    } else {
        let d = ks.drop_last();
        lemma_extends_drop_last(m, ks);
        lemma_extendable_keys_pend(m, d);
        assert(d.push(ks.last()) =~= ks);
        assert(nothing(d.len()).push(None) =~= nothing(ks.len()));
    }
}

/// Typing a bound chord that no longer chord extends, from an empty buffer,
/// emits exactly its commands at its last key, nothing before, and leaves
/// the buffer empty.
pub proof fn lemma_bound_chord_fires(m: KeyMap, c: Seq<Key>)
    requires
        m.contains_key(c),
        c.len() > 0,
        !extends_beyond(m, c),
    ensures
        run(m, Seq::empty(), c).0 == Seq::<Key>::empty(),
        run(m, Seq::empty(), c).1 == nothing((c.len() - 1) as nat).push(Some(m[c])),
{
    let d = c.drop_last();
    assert(c.subrange(0, d.len() as int) =~= d);
    assert(m.contains_key(c) && d.len() < c.len() && is_prefix(d, c));
    lemma_extendable_keys_pend(m, d);
    assert(d.push(c.last()) =~= c);
}

/// Typing a proper prefix of a bound chord emits nothing at every key; the
/// next key alone decides, by one step of the matcher from those keys.
pub proof fn lemma_proper_prefix_pends(m: KeyMap, c: Seq<Key>, ks: Seq<Key>, k: Key)
    requires
        m.contains_key(c),
        ks.len() < c.len(),
        is_prefix(ks, c),
    ensures
        run(m, Seq::empty(), ks) == (ks, nothing(ks.len())),
        run(m, Seq::empty(), ks.push(k)) == (step(m, ks, k).0, nothing(ks.len()).push(step(m, ks, k).1)),
{
    lemma_extendable_keys_pend(m, ks);
    assert(ks.push(k).drop_last() =~= ks);
}

/// Rebinding a chord replaces its commands: only the latest binding is seen,
/// and where no longer chord extends it, typing it emits the latest commands.
pub proof fn lemma_rebind_shadows(
    m: KeyMap,
    a: Seq<Key>,
    x: Seq<ReViCommand>,
    y: Seq<ReViCommand>,
)
    ensures
        m.insert(a, x).insert(a, y) == m.insert(a, y),
        a.len() > 0 && !extends_beyond(m.insert(a, y), a)
            ==> run(m.insert(a, x).insert(a, y), Seq::empty(), a).1.last() == Some(y),
{
    assert(m.insert(a, x).insert(a, y) =~= m.insert(a, y));
    if a.len() > 0 && !extends_beyond(m.insert(a, y), a) {
        lemma_bound_chord_fires(m.insert(a, y), a);
    }
}

/// With `[a]` and `[a, b]` both bound and nothing longer after `[a, b]`,
/// typing `a` then `b` emits the commands of `[a, b]` once, and never those of `[a]`.
pub proof fn lemma_longer_chord_wins(m: KeyMap, a: Key, b: Key)
    requires
        m.contains_key(seq![a]),
        m.contains_key(seq![a, b]),
        !extends_beyond(m, seq![a, b]),
    ensures
        run(m, Seq::empty(), seq![a, b]) == (Seq::<Key>::empty(), seq![None, Some(m[seq![a, b]])]),
{
    lemma_bound_chord_fires(m, seq![a, b]);
    assert(nothing(1).push(Some(m[seq![a, b]])) =~= seq![None, Some(m[seq![a, b]])]);
}

/// With `[a]` bound and extended by `[a, b]`, typing `a` then a key `k` that
/// leads nowhere after `a` and starts no chord drops both keys: nothing is
/// emitted, in particular not the commands of `[a]`, and the buffer is empty.
pub proof fn lemma_dead_end_drops_shorter(m: KeyMap, a: Key, b: Key, k: Key)
    requires
        m.contains_key(seq![a]),
        m.contains_key(seq![a, b]),
        k != b,
        is_dead_end(m, seq![a, k]),
        !has_prefix_in(m, seq![k]),
    ensures
        run(m, Seq::empty(), seq![a, k]) == (Seq::<Key>::empty(), seq![None::<Seq<ReViCommand>>, None]),
{
    let one = seq![a];
    assert(seq![a, b].subrange(0, 1) =~= one);
    assert(m.contains_key(seq![a, b]) && one.len() < seq![a, b].len() && is_prefix(one, seq![a, b]));
    lemma_extendable_keys_pend(m, one);
    assert(seq![a, k].drop_last() =~= one);
    assert(one.push(k) =~= seq![a, k]);
    assert(seq![k].subrange(0, 1) =~= seq![k]);
    assert(!m.contains_key(seq![k]));
    assert forall|c: Seq<Key>| #[trigger] m.contains_key(c) implies !(1 < c.len() && is_prefix(seq![k], c)) by {
        if 1 < c.len() && is_prefix(seq![k], c) {
            assert(is_prefix(seq![k], c));
        }
    }
    assert(settle(m, seq![k]) == (Seq::<Key>::empty(), None::<Seq<ReViCommand>>));
    assert(nothing(1).push(None) =~= seq![None::<Seq<ReViCommand>>, None]);
}

/// Whatever one key emits is the full command list of some bound chord.
pub proof fn lemma_step_emits_bound(m: KeyMap, p: Seq<Key>, k: Key)
    ensures
        step(m, p, k).1 matches Some(v) ==> is_bound_value(m, v),
        step(m, p, k).0.len() == 0 || extends_beyond(m, step(m, p, k).0),
{
    let s = if p.len() > 0 && is_dead_end(m, p.push(k)) { seq![k] } else { p.push(k) };
    assert(step(m, p, k) == settle(m, s));
    if m.contains_key(s) {
        assert(m.contains_key(s) && m[s] == m[s]);
    }
}

/// Over any run of keys, every emitted command list is exactly one that a
/// chord of the table is bound to; one outcome comes per key.
pub proof fn lemma_matches_are_bound(m: KeyMap, p: Seq<Key>, ks: Seq<Key>)
    ensures
        run(m, p, ks).1.len() == ks.len(),
        forall|i: int|
            0 <= i < ks.len() ==> (#[trigger] run(m, p, ks).1[i] matches Some(v)
                ==> is_bound_value(m, v)),
    decreases ks.len(),
{
    if ks.len() > 0 {
        lemma_matches_are_bound(m, p, ks.drop_last());
        lemma_step_emits_bound(m, run(m, p, ks.drop_last()).0, ks.last());
    }
}

/// Binding a chord in one mode changes nothing that keys do in another mode.
pub proof fn lemma_binding_is_mode_local(
    before: Mapper,
    after: Mapper,
    mode: Mode,
    other: Mode,
    p: Seq<Key>,
    ks: Seq<Key>,
)
    requires
        other != mode,
        forall|o: Mode| o != mode ==> #[trigger] after.table(o) == before.table(o),
    ensures
        run(after.table(other), p, ks) == run(before.table(other), p, ks),
{
}

/// In a mode whose table binds nothing to `v`, no key sequence ever emits `v`,
/// whatever other modes bind.
pub proof fn lemma_unbound_never_emitted(
    mapper: Mapper,
    mode: Mode,
    p: Seq<Key>,
    ks: Seq<Key>,
    v: Seq<ReViCommand>,
)
    requires
        !is_bound_value(mapper.table(mode), v),
    ensures
        forall|i: int| 0 <= i < ks.len() ==> #[trigger] run(mapper.table(mode), p, ks).1[i] != Some(v),
{
    lemma_matches_are_bound(mapper.table(mode), p, ks);
}

} // verus!
