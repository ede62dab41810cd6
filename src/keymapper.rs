use vstd::prelude::*;
use crate::chord::KeyMap;
use crate::chord_table::{BindError, ChordTable};
use crate::key::Key;
use crate::mode::Mode;
use crate::revi_command::ReViCommand;

verus! {

/// The default Normal-mode bindings, added to `m`.
pub open spec fn normal_defaults(m: KeyMap) -> KeyMap {
    m
        .insert(seq![Key::Esc], seq![ReViCommand::Mode(Mode::Normal)])
        .insert(
            seq![Key::UZ, Key::Shift, Key::UZ, Key::Shift],
            seq![ReViCommand::Save, ReViCommand::Quit],
        )
        .insert(seq![Key::UZ, Key::Shift, Key::UQ, Key::Shift], seq![ReViCommand::Quit])
        .insert(seq![Key::LJ], seq![ReViCommand::CursorDown])
        .insert(seq![Key::Down], seq![ReViCommand::CursorDown])
        .insert(seq![Key::LK], seq![ReViCommand::CursorUp])
        .insert(seq![Key::Up], seq![ReViCommand::CursorUp])
        .insert(seq![Key::LH], seq![ReViCommand::CursorLeft])
        .insert(seq![Key::Left], seq![ReViCommand::CursorLeft])
        .insert(seq![Key::LL], seq![ReViCommand::CursorRight])
        .insert(seq![Key::Right], seq![ReViCommand::CursorRight])
        .insert(seq![Key::Colon], seq![ReViCommand::Mode(Mode::Command)])
        .insert(seq![Key::LI], seq![ReViCommand::Mode(Mode::Insert)])
        .insert(seq![Key::LX], seq![ReViCommand::DeleteChar])
        .insert(seq![Key::Delete], seq![ReViCommand::DeleteChar])
        .insert(seq![Key::LD, Key::LD], seq![ReViCommand::DeleteLine, ReViCommand::CursorUp])
        .insert(seq![Key::Home], seq![ReViCommand::Home])
        .insert(seq![Key::End], seq![ReViCommand::End])
        .insert(seq![Key::N0], seq![ReViCommand::Home])
        .insert(seq![Key::Char('$')], seq![ReViCommand::End])
        .insert(
            seq![Key::UA, Key::Shift],
            seq![ReViCommand::End, ReViCommand::Mode(Mode::Insert), ReViCommand::CursorRight],
        )
        .insert(seq![Key::LY, Key::Ctrl], seq![ReViCommand::ScrollUp, ReViCommand::CursorDown])
        .insert(seq![Key::LE, Key::Ctrl], seq![ReViCommand::ScrollDown, ReViCommand::CursorUp])
        .insert(seq![Key::LU, Key::Ctrl], seq![ReViCommand::ScrollUp])
        .insert(seq![Key::LD, Key::Ctrl], seq![ReViCommand::ScrollDown])
        .insert(
            seq![Key::LO],
            seq![
                ReViCommand::End,
                ReViCommand::Mode(Mode::Insert),
                ReViCommand::CursorRight,
                ReViCommand::NewLine,
            ],
        )
        .insert(
            seq![Key::UO, Key::Shift],
            seq![
                ReViCommand::Home,
                ReViCommand::NewLine,
                ReViCommand::Mode(Mode::Insert),
                ReViCommand::CursorUp,
            ],
        )
        .insert(seq![Key::Caret], seq![ReViCommand::FirstCharInLine])
        .insert(
            seq![Key::UI, Key::Shift],
            seq![ReViCommand::FirstCharInLine, ReViCommand::Mode(Mode::Insert)],
        )
        .insert(seq![Key::LW], seq![ReViCommand::MoveForwardByWord])
        .insert(seq![Key::LB], seq![ReViCommand::MoveBackwardByWord])
        .insert(seq![Key::LG, Key::LG], seq![ReViCommand::JumpToFirstLineBuffer])
        .insert(seq![Key::UG, Key::Shift], seq![ReViCommand::JumpToLastLineBuffer])
}

/// The default Insert-mode bindings, added to `m`.
pub open spec fn insert_defaults(m: KeyMap) -> KeyMap {
    m
        .insert(seq![Key::Esc], seq![ReViCommand::Mode(Mode::Normal)])
        .insert(seq![Key::Backspace], seq![ReViCommand::Backspace])
        .insert(seq![Key::Enter], seq![ReViCommand::NewLine])
        .insert(seq![Key::Home], seq![ReViCommand::Home])
        .insert(seq![Key::End], seq![ReViCommand::End])
        .insert(seq![Key::Down], seq![ReViCommand::CursorDown])
        .insert(seq![Key::Up], seq![ReViCommand::CursorUp])
        .insert(seq![Key::Left], seq![ReViCommand::CursorLeft])
        .insert(seq![Key::Right], seq![ReViCommand::CursorRight])
}

/// The default Command-mode bindings, added to `m`.
pub open spec fn command_defaults(m: KeyMap) -> KeyMap {
    m
        .insert(seq![Key::Esc], seq![ReViCommand::Mode(Mode::Normal)])
        .insert(seq![Key::Enter], seq![ReViCommand::Mode(Mode::Normal)])
}

/// The list `[a]`.
fn list1<T>(a: T) -> (r: Vec<T>)
    ensures
        r@ == seq![a],
{
    let mut r = Vec::new();
    r.push(a);
    r
}

/// The list `[a, b]`.
fn list2<T>(a: T, b: T) -> (r: Vec<T>)
    ensures
        r@ == seq![a, b],
{
    let mut r = list1(a);
    r.push(b);
    r
}

/// The list `[a, b, c]`.
fn list3<T>(a: T, b: T, c: T) -> (r: Vec<T>)
    ensures
        r@ == seq![a, b, c],
{
    let mut r = list2(a, b);
    r.push(c);
    r
}

/// The list `[a, b, c, d]`.
fn list4<T>(a: T, b: T, c: T, d: T) -> (r: Vec<T>)
    ensures
        r@ == seq![a, b, c, d],
{
    let mut r = list3(a, b, c);
    r.push(d);
    r
}

/// The chord tables of the three modes.
pub struct Mapper {
    nmaps: ChordTable,
    imaps: ChordTable,
    cmaps: ChordTable,
}

impl Mapper {
    /// The table consulted in `mode`.
    pub closed spec fn map_for(&self, mode: Mode) -> ChordTable {
        match mode {
            Mode::Normal => self.nmaps,
            Mode::Insert => self.imaps,
            Mode::Command => self.cmaps,
        }
    }

    /// What the table of `mode` binds.
    pub open spec fn table(&self, mode: Mode) -> KeyMap {
        self.map_for(mode)@
    }

    /// `self` with the table of `mode` replaced by `t`.
    spec fn with_table(&self, mode: Mode, t: ChordTable) -> Mapper {
        match mode {
            Mode::Normal => Mapper { nmaps: t, ..*self },
            Mode::Insert => Mapper { imaps: t, ..*self },
            Mode::Command => Mapper { cmaps: t, ..*self },
        }
    }

    /// Every table is well formed.
    pub open spec fn wf(&self) -> bool {
        &&& self.map_for(Mode::Normal).wf()
        &&& self.map_for(Mode::Insert).wf()
        &&& self.map_for(Mode::Command).wf()
    }

    /// Three empty tables.
    pub fn new() -> (r: Mapper)
        ensures
            r.wf(),
            forall|m: Mode| #[trigger] r.table(m) == Map::<Seq<Key>, Seq<ReViCommand>>::empty(),
    {
        Mapper { nmaps: ChordTable::new(), imaps: ChordTable::new(), cmaps: ChordTable::new() }
    }

    /// The table of `mode`.
    pub fn get_map(&self, mode: &Mode) -> (r: &ChordTable)
        ensures
            *r == self.map_for(*mode),
    {
        match mode {
            Mode::Normal => &self.nmaps,
            Mode::Insert => &self.imaps,
            Mode::Command => &self.cmaps,
        }
    }

    fn get_map_mut(&mut self, mode: &Mode) -> (r: &mut ChordTable)
        ensures
            *r == old(self).map_for(*mode),
            *final(self) == old(self).with_table(*mode, *final(r)),
    {
        match mode {
            Mode::Normal => &mut self.nmaps,
            Mode::Insert => &mut self.imaps,
            Mode::Command => &mut self.cmaps,
        }
    }

    /// The commands bound to exactly `event` in `mode`, if any.
    pub fn get_mapping(&self, mode: &Mode, event: &[Key]) -> (r: Option<&Vec<ReViCommand>>)
        requires
            self.wf(),
        ensures
            match r {
                Some(v) => self.table(*mode).contains_key(event@)
                    && v@ == self.table(*mode)[event@],
                None => !self.table(*mode).contains_key(event@),
            },
    {
        self.get_map(mode).lookup_exact(event)
    }

    /// Binds `keys` to `commands` in `mode`, replacing what `keys` had there;
    /// the other modes are untouched. An empty chord is refused.
    pub fn insert_mapping(
        self,
        mode: &Mode,
        keys: Vec<Key>,
        commands: Vec<ReViCommand>,
    ) -> (r: Result<Mapper, BindError>)
        requires
            self.wf(),
        ensures
            keys@.len() == 0 ==> r == Err::<Mapper, BindError>(BindError::EmptyChord),
            keys@.len() > 0 ==> (r matches Ok(m) && m.wf()
                && m.table(*mode) == self.table(*mode).insert(keys@, commands@)
                && forall|o: Mode| o != *mode ==> #[trigger] m.table(o) == self.table(o)),
    {
        if keys.len() == 0 {
            return Err(BindError::EmptyChord);
        }
        Ok(self.with(mode, keys, commands))
    }

    /// Binds a chord known to be non-empty, for building the default tables.
    fn with(self, mode: &Mode, keys: Vec<Key>, commands: Vec<ReViCommand>) -> (r: Mapper)
        requires
            self.wf(),
            keys@.len() > 0,
        ensures
            r.wf(),
            r.table(*mode) == self.table(*mode).insert(keys@, commands@),
            forall|o: Mode| o != *mode ==> #[trigger] r.table(o) == self.table(o),
    {
        let mut m = self;
        let _ = m.get_map_mut(mode).bind(keys, commands);
        m
    }

    /// Adds the default Normal-mode bindings.
    fn build_normal(self) -> (r: Mapper)
        requires
            self.wf(),
        ensures
            r.wf(),
            r.table(Mode::Normal) == normal_defaults(self.table(Mode::Normal)),
            r.table(Mode::Insert) == self.table(Mode::Insert),
            r.table(Mode::Command) == self.table(Mode::Command),
    {
        self
            .with(&Mode::Normal, list1(Key::Esc), list1(ReViCommand::Mode(Mode::Normal)))
            .with(
                &Mode::Normal,
                list4(Key::UZ, Key::Shift, Key::UZ, Key::Shift),
                list2(ReViCommand::Save, ReViCommand::Quit),
            )
            .with(
                &Mode::Normal,
                list4(Key::UZ, Key::Shift, Key::UQ, Key::Shift),
                list1(ReViCommand::Quit),
            )
            .with(&Mode::Normal, list1(Key::LJ), list1(ReViCommand::CursorDown))
            .with(&Mode::Normal, list1(Key::Down), list1(ReViCommand::CursorDown))
            .with(&Mode::Normal, list1(Key::LK), list1(ReViCommand::CursorUp))
            .with(&Mode::Normal, list1(Key::Up), list1(ReViCommand::CursorUp))
            .with(&Mode::Normal, list1(Key::LH), list1(ReViCommand::CursorLeft))
            .with(&Mode::Normal, list1(Key::Left), list1(ReViCommand::CursorLeft))
            .with(&Mode::Normal, list1(Key::LL), list1(ReViCommand::CursorRight))
            .with(&Mode::Normal, list1(Key::Right), list1(ReViCommand::CursorRight))
            .with(&Mode::Normal, list1(Key::Colon), list1(ReViCommand::Mode(Mode::Command)))
            .with(&Mode::Normal, list1(Key::LI), list1(ReViCommand::Mode(Mode::Insert)))
            .with(&Mode::Normal, list1(Key::LX), list1(ReViCommand::DeleteChar))
            .with(&Mode::Normal, list1(Key::Delete), list1(ReViCommand::DeleteChar))
            .with(
                &Mode::Normal,
                list2(Key::LD, Key::LD),
                list2(ReViCommand::DeleteLine, ReViCommand::CursorUp),
            )
            .with(&Mode::Normal, list1(Key::Home), list1(ReViCommand::Home))
            .with(&Mode::Normal, list1(Key::End), list1(ReViCommand::End))
            .with(&Mode::Normal, list1(Key::N0), list1(ReViCommand::Home))
            .with(&Mode::Normal, list1(Key::Char('$')), list1(ReViCommand::End))
            .with(
                &Mode::Normal,
                list2(Key::UA, Key::Shift),
                list3(ReViCommand::End, ReViCommand::Mode(Mode::Insert), ReViCommand::CursorRight),
            )
            .with(
                &Mode::Normal,
                list2(Key::LY, Key::Ctrl),
                list2(ReViCommand::ScrollUp, ReViCommand::CursorDown),
            )
            .with(
                &Mode::Normal,
                list2(Key::LE, Key::Ctrl),
                list2(ReViCommand::ScrollDown, ReViCommand::CursorUp),
            )
            .with(&Mode::Normal, list2(Key::LU, Key::Ctrl), list1(ReViCommand::ScrollUp))
            .with(&Mode::Normal, list2(Key::LD, Key::Ctrl), list1(ReViCommand::ScrollDown))
            .with(
                &Mode::Normal,
                list1(Key::LO),
                list4(
                    ReViCommand::End,
                    ReViCommand::Mode(Mode::Insert),
                    ReViCommand::CursorRight,
                    ReViCommand::NewLine,
                ),
            )
            .with(
                &Mode::Normal,
                list2(Key::UO, Key::Shift),
                list4(
                    ReViCommand::Home,
                    ReViCommand::NewLine,
                    ReViCommand::Mode(Mode::Insert),
                    ReViCommand::CursorUp,
                ),
            )
            .with(&Mode::Normal, list1(Key::Caret), list1(ReViCommand::FirstCharInLine))
            .with(
                &Mode::Normal,
                list2(Key::UI, Key::Shift),
                list2(ReViCommand::FirstCharInLine, ReViCommand::Mode(Mode::Insert)),
            )
            .with(&Mode::Normal, list1(Key::LW), list1(ReViCommand::MoveForwardByWord))
            .with(&Mode::Normal, list1(Key::LB), list1(ReViCommand::MoveBackwardByWord))
            .with(&Mode::Normal, list2(Key::LG, Key::LG), list1(ReViCommand::JumpToFirstLineBuffer))
            .with(
                &Mode::Normal,
                list2(Key::UG, Key::Shift),
                list1(ReViCommand::JumpToLastLineBuffer),
            )
    }

    /// Adds the default Insert-mode bindings.
    fn build_insert(self) -> (r: Mapper)
        requires
            self.wf(),
        ensures
            r.wf(),
            r.table(Mode::Insert) == insert_defaults(self.table(Mode::Insert)),
            r.table(Mode::Normal) == self.table(Mode::Normal),
            r.table(Mode::Command) == self.table(Mode::Command),
    {
        self
            .with(&Mode::Insert, list1(Key::Esc), list1(ReViCommand::Mode(Mode::Normal)))
            .with(&Mode::Insert, list1(Key::Backspace), list1(ReViCommand::Backspace))
            .with(&Mode::Insert, list1(Key::Enter), list1(ReViCommand::NewLine))
            .with(&Mode::Insert, list1(Key::Home), list1(ReViCommand::Home))
            .with(&Mode::Insert, list1(Key::End), list1(ReViCommand::End))
            .with(&Mode::Insert, list1(Key::Down), list1(ReViCommand::CursorDown))
            .with(&Mode::Insert, list1(Key::Up), list1(ReViCommand::CursorUp))
            .with(&Mode::Insert, list1(Key::Left), list1(ReViCommand::CursorLeft))
            .with(&Mode::Insert, list1(Key::Right), list1(ReViCommand::CursorRight))
    }

    /// Adds the default Command-mode bindings.
    fn build_command(self) -> (r: Mapper)
        requires
            self.wf(),
        ensures
            r.wf(),
            r.table(Mode::Command) == command_defaults(self.table(Mode::Command)),
            r.table(Mode::Normal) == self.table(Mode::Normal),
            r.table(Mode::Insert) == self.table(Mode::Insert),
    {
        self
            .with(&Mode::Command, list1(Key::Esc), list1(ReViCommand::Mode(Mode::Normal)))
            .with(&Mode::Command, list1(Key::Enter), list1(ReViCommand::Mode(Mode::Normal)))
    }
}

impl Default for Mapper {
    /// The default keymap of every mode.
    fn default() -> (r: Mapper)
        ensures
            r.wf(),
            r.table(Mode::Normal) == normal_defaults(Map::empty()),
            r.table(Mode::Insert) == insert_defaults(Map::empty()),
            r.table(Mode::Command) == command_defaults(Map::empty()),
    {
        key_builder()
    }
}

/// Builds the default keymap of every mode.
pub fn key_builder() -> (r: Mapper)
    ensures
        r.wf(),
        r.table(Mode::Normal) == normal_defaults(Map::empty()),
        r.table(Mode::Insert) == insert_defaults(Map::empty()),
        r.table(Mode::Command) == command_defaults(Map::empty()),
{
    Mapper::new().build_normal().build_insert().build_command()
}

} // verus!
