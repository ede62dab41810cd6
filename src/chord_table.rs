use vstd::prelude::*;
use crate::chord::{
    chords_unique, extends_beyond, has_prefix_in, is_prefix, lemma_map_of_at,
    lemma_map_of_domain, lemma_map_of_push, lemma_map_of_update, map_of, same_chord, starts_with,
    Entry, KeyMap,
};
use crate::key::Key;
use crate::revi_command::ReViCommand;

verus! {

/// Why a binding was refused.
#[derive(Debug, Clone, Copy, PartialEq, Eq, Hash, Structural)]
pub enum BindError {
    /// A chord needs at least one key.
    EmptyChord,
}

/// One mode's table: each bound chord maps to the commands it triggers, in
/// order. A chord may be a strict prefix of another.
pub struct ChordTable {
    bindings: Vec<(Vec<Key>, Vec<ReViCommand>)>,
}

impl View for ChordTable {
    type V = KeyMap;

    closed spec fn view(&self) -> KeyMap {
        map_of(self.entries())
    }
}

impl ChordTable {
    spec fn entries(&self) -> Seq<Entry> {
        self.bindings@.map_values(|b: (Vec<Key>, Vec<ReViCommand>)| (b.0@, b.1@))
    }

    /// Chords are stored once each and none is empty.
    pub closed spec fn wf(&self) -> bool {
        &&& chords_unique(self.entries())
        &&& forall|i: int|
            0 <= i < self.entries().len() ==> (#[trigger] self.entries()[i]).0.len() > 0
    }

    proof fn lemma_view(&self, c: Seq<Key>)
        requires
            self.wf(),
        ensures
            self@.contains_key(c) <==> exists|i: int|
                0 <= i < self.entries().len() && (#[trigger] self.entries()[i]).0 == c,
            forall|i: int|
                0 <= i < self.entries().len() && (#[trigger] self.entries()[i]).0 == c
                    ==> self@[c] == self.entries()[i].1,
    {
        lemma_map_of_domain(self.entries(), c);
        assert forall|i: int|
            0 <= i < self.entries().len() && (#[trigger] self.entries()[i]).0 == c
                implies self@[c] == self.entries()[i].1 by {
            lemma_map_of_at(self.entries(), i);
        }
    }

    /// A table with no chord bound.
    pub fn new() -> (r: ChordTable)
        ensures
            r.wf(),
            r@ == Map::<Seq<Key>, Seq<ReViCommand>>::empty(),
    {
        let r = ChordTable { bindings: Vec::new() };
        assert(r.entries() =~= Seq::<Entry>::empty());
        r
    }

    /// Every chord of the table has at least one key.
    pub proof fn lemma_chords_nonempty(&self, c: Seq<Key>)
        requires
            self.wf(),
            self@.contains_key(c),
        ensures
            c.len() > 0,
    {
        self.lemma_view(c);
    }

    fn find(&self, chord: &[Key]) -> (r: Option<usize>)
        requires
            self.wf(),
        ensures
            match r {
                Some(i) => i < self.entries().len() && self.entries()[i as int].0 == chord@,
                None => !self@.contains_key(chord@),
            },
    {
        let mut i: usize = 0;
        while i < self.bindings.len()
            invariant
                self.wf(),
                i <= self.bindings@.len(),
                forall|j: int| 0 <= j < i ==> (#[trigger] self.entries()[j]).0 != chord@,
            decreases self.bindings@.len() - i,
        {
            if same_chord(self.bindings[i].0.as_slice(), chord) {
                return Some(i);
            }
            i = i + 1;
        }
        proof {
            self.lemma_view(chord@);
        }
        None
    }

    /// The commands bound to exactly `chord`, if any.
    pub fn lookup_exact(&self, chord: &[Key]) -> (r: Option<&Vec<ReViCommand>>)
        requires
            self.wf(),
        ensures
            match r {
                Some(v) => self@.contains_key(chord@) && v@ == self@[chord@],
                None => !self@.contains_key(chord@),
            },
    {
        match self.find(chord) {
            Some(i) => {
                proof {
                    self.lemma_view(chord@);
                }
                Some(&self.bindings[i].1)
            },
            None => None,
        }
    }

    /// Whether some bound chord starts with `partial` (or is `partial`).
    pub fn has_prefix(&self, partial: &[Key]) -> (r: bool)
        requires
            self.wf(),
        ensures
            r == has_prefix_in(self@, partial@),
    {
        self.scan_prefix(partial, false)
    }

    /// Whether some bound chord is longer than `partial` and starts with it.
    pub fn has_longer(&self, partial: &[Key]) -> (r: bool)
        requires
            self.wf(),
        ensures
            r == extends_beyond(self@, partial@),
    {
        self.scan_prefix(partial, true)
    }

    /// Looks for a chord that starts with `partial`, and, where `strict`
    /// holds, is longer than it.
    fn scan_prefix(&self, partial: &[Key], strict: bool) -> (r: bool)
        requires
            self.wf(),
        ensures
            r == exists|c: Seq<Key>|
                #[trigger] self@.contains_key(c) && (strict ==> partial@.len() < c.len())
                    && is_prefix(partial@, c),
    {
        let mut i: usize = 0;
        while i < self.bindings.len()
            invariant
                self.wf(),
                i <= self.bindings@.len(),
                forall|j: int|
                    0 <= j < i ==> !((strict ==> partial@.len() < (#[trigger] self.entries()[j]).0.len())
                        && is_prefix(partial@, self.entries()[j].0)),
            decreases self.bindings@.len() - i,
        {
            let c = self.bindings[i].0.as_slice();
            if (!strict || partial.len() < c.len()) && starts_with(c, partial) {
                proof {
                    self.lemma_view(c@);
                    assert(self.entries()[i as int].0 == c@);
                }
                return true;
            }
            i = i + 1;
        }
        assert forall|c: Seq<Key>|
            #[trigger] self@.contains_key(c) implies !((strict ==> partial@.len() < c.len())
                && is_prefix(partial@, c)) by {
            self.lemma_view(c);
        }
        false
    }

    /// Binds `chord` to `commands`, replacing any commands it had. An empty
    /// chord is refused and leaves the table as it was.
    pub fn bind(
        &mut self,
        chord: Vec<Key>,
        commands: Vec<ReViCommand>,
    ) -> (r: Result<(), BindError>)
        requires
            old(self).wf(),
        ensures
            final(self).wf(),
            chord@.len() == 0 ==> r == Err::<(), BindError>(BindError::EmptyChord)
                && final(self)@ == old(self)@,
            chord@.len() > 0 ==> r is Ok && final(self)@ == old(self)@.insert(chord@, commands@),
    {
        if chord.len() == 0 {
            return Err(BindError::EmptyChord);
        }
        let ghost c = chord@;
        let ghost v = commands@;
        let ghost before = self.entries();
        match self.find(chord.as_slice()) {
            Some(i) => {
                self.bindings.set(i, (chord, commands));
                proof {
                    assert(self.entries() =~= before.update(i as int, (c, v)));
                    lemma_map_of_update(before, i as int, v);
                }
            },
            None => {
                self.bindings.push((chord, commands));
                proof {
                    assert(self.entries() =~= before.push((c, v)));
                    lemma_map_of_push(before, (c, v));
                    lemma_map_of_domain(before, c);
                }
            },
        }
        Ok(())
    }
}

} // verus!
