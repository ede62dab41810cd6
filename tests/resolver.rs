use revi_core::key::Key;
use revi_core::keymapper::Mapper;
use revi_core::mode::Mode;
use revi_core::resolver::{MatchOutcome, Resolver};
use revi_core::revi_command::ReViCommand;

fn bind(m: Mapper, mode: Mode, keys: &[Key], commands: &[ReViCommand]) -> Mapper {
    m.insert_mapping(&mode, keys.to_vec(), commands.to_vec()).unwrap()
}

fn feed_all(r: &mut Resolver, m: &Mapper, mode: Mode, keys: &[Key]) -> Vec<MatchOutcome> {
    keys.iter().map(|k| r.feed(m, &mode, *k)).collect()
}

fn matched(commands: &[ReViCommand]) -> MatchOutcome {
    MatchOutcome::Matched(commands.to_vec())
}

fn scenario_mapper() -> Mapper {
    let mut m = Mapper::new();
    for mode in [Mode::Normal, Mode::Insert, Mode::Command] {
        m = bind(m, mode, &[Key::Esc], &[ReViCommand::Mode(Mode::Normal)]);
    }
    bind(m, Mode::Normal, &[Key::LG, Key::LG], &[ReViCommand::JumpToFirstLineBuffer])
}

#[test]
fn end_to_end_gg_and_dead_end() {
    let m = scenario_mapper();
    let mut r = Resolver::new();
    let out = feed_all(&mut r, &m, Mode::Normal, &[Key::LG, Key::LG]);
    assert_eq!(out, vec![MatchOutcome::Pending, matched(&[ReViCommand::JumpToFirstLineBuffer])]);
    assert!(r.pending().is_empty());

    let out = feed_all(&mut r, &m, Mode::Normal, &[Key::LG, Key::LX]);
    assert_eq!(out, vec![MatchOutcome::Pending, MatchOutcome::Pending]);
    assert!(r.pending().is_empty());
}

#[test]
fn end_to_end_escape_in_every_mode() {
    let m = scenario_mapper();
    for mode in [Mode::Normal, Mode::Insert, Mode::Command] {
        let mut r = Resolver::new();
        assert_eq!(r.feed(&m, &mode, Key::Esc), matched(&[ReViCommand::Mode(Mode::Normal)]));
        assert!(r.pending().is_empty());
    }
}

#[test]
fn bound_chord_fires_at_last_key() {
    let m = Mapper::default();
    let mut r = Resolver::new();
    let out = feed_all(&mut r, &m, Mode::Normal, &[Key::LD, Key::LD]);
    assert_eq!(
        out,
        vec![MatchOutcome::Pending, matched(&[ReViCommand::DeleteLine, ReViCommand::CursorUp])]
    );
    assert!(r.pending().is_empty());
}

#[test]
fn single_key_chord_fires_at_once() {
    let m = Mapper::default();
    let mut r = Resolver::new();
    assert_eq!(
        r.feed(&m, &Mode::Normal, Key::LO),
        matched(&[
            ReViCommand::End,
            ReViCommand::Mode(Mode::Insert),
            ReViCommand::CursorRight,
            ReViCommand::NewLine,
        ])
    );
    assert!(r.pending().is_empty());
}

#[test]
fn proper_prefix_pends_at_every_step() {
    let m = Mapper::default();
    let mut r = Resolver::new();
    let out = feed_all(&mut r, &m, Mode::Normal, &[Key::UZ, Key::Shift, Key::UZ]);
    assert_eq!(out, vec![MatchOutcome::Pending; 3]);
    assert_eq!(r.pending(), &[Key::UZ, Key::Shift, Key::UZ][..]);
    assert_eq!(
        r.feed(&m, &Mode::Normal, Key::Shift),
        matched(&[ReViCommand::Save, ReViCommand::Quit])
    );
    assert!(r.pending().is_empty());
}

#[test]
fn proper_prefix_then_other_branch() {
    let m = Mapper::default();
    let mut r = Resolver::new();
    let out = feed_all(&mut r, &m, Mode::Normal, &[Key::UZ, Key::Shift, Key::UQ, Key::Shift]);
    assert_eq!(
        out,
        vec![
            MatchOutcome::Pending,
            MatchOutcome::Pending,
            MatchOutcome::Pending,
            matched(&[ReViCommand::Quit])
        ]
    );
}

#[test]
fn rebinding_shadows_earlier_commands() {
    let m = Mapper::new();
    let m = bind(m, Mode::Normal, &[Key::LQ], &[ReViCommand::Save]);
    let m = bind(m, Mode::Normal, &[Key::LQ], &[ReViCommand::Quit, ReViCommand::Save]);
    assert_eq!(
        m.get_mapping(&Mode::Normal, &[Key::LQ]),
        Some(&vec![ReViCommand::Quit, ReViCommand::Save])
    );
    let mut r = Resolver::new();
    assert_eq!(
        r.feed(&m, &Mode::Normal, Key::LQ),
        matched(&[ReViCommand::Quit, ReViCommand::Save])
    );
}

fn precedence_mapper() -> Mapper {
    let m = Mapper::new();
    let m = bind(m, Mode::Normal, &[Key::LA], &[ReViCommand::CursorLeft]);
    bind(m, Mode::Normal, &[Key::LA, Key::LB], &[ReViCommand::CursorRight])
}

#[test]
fn longer_chord_wins_over_its_prefix() {
    let m = precedence_mapper();
    let mut r = Resolver::new();
    let out = feed_all(&mut r, &m, Mode::Normal, &[Key::LA, Key::LB]);
    assert_eq!(out, vec![MatchOutcome::Pending, matched(&[ReViCommand::CursorRight])]);
    assert!(r.pending().is_empty());
}

#[test]
fn bound_prefix_is_held_back() {
    let m = precedence_mapper();
    let mut r = Resolver::new();
    assert_eq!(r.feed(&m, &Mode::Normal, Key::LA), MatchOutcome::Pending);
    assert_eq!(r.pending(), &[Key::LA][..]);
}

#[test]
fn dead_end_drops_deferred_shorter_chord() {
    let m = precedence_mapper();
    let mut r = Resolver::new();
    let out = feed_all(&mut r, &m, Mode::Normal, &[Key::LA, Key::LC]);
    assert_eq!(out, vec![MatchOutcome::Pending, MatchOutcome::Pending]);
    assert!(r.pending().is_empty());
}

#[test]
fn dead_end_reoffers_breaking_key() {
    let m = Mapper::default();
    let mut r = Resolver::new();
    let out = feed_all(&mut r, &m, Mode::Normal, &[Key::LD, Key::LJ]);
    assert_eq!(out, vec![MatchOutcome::Pending, matched(&[ReViCommand::CursorDown])]);
    assert!(r.pending().is_empty());
}

#[test]
fn dead_end_reoffered_key_may_start_a_chord() {
    let m = Mapper::default();
    let mut r = Resolver::new();
    let out = feed_all(&mut r, &m, Mode::Normal, &[Key::LD, Key::LG]);
    assert_eq!(out, vec![MatchOutcome::Pending, MatchOutcome::Pending]);
    assert_eq!(r.pending(), &[Key::LG][..]);
    assert_eq!(
        r.feed(&m, &Mode::Normal, Key::LG),
        matched(&[ReViCommand::JumpToFirstLineBuffer])
    );
}

#[test]
fn unknown_key_from_empty_buffer_emits_nothing() {
    let m = Mapper::default();
    let mut r = Resolver::new();
    assert_eq!(r.feed(&m, &Mode::Normal, Key::Unknown), MatchOutcome::Pending);
    assert!(r.pending().is_empty());
}

#[test]
fn matched_commands_are_bound_lists() {
    let m = Mapper::default();
    let keys = [
        Key::LD, Key::LX, Key::UZ, Key::LJ, Key::LG, Key::LW, Key::LD, Key::Ctrl, Key::UA,
        Key::Shift, Key::Char('$'), Key::LY, Key::Ctrl, Key::LZ,
    ];
    let mut r = Resolver::new();
    for k in keys {
        if let MatchOutcome::Matched(cmds) = r.feed(&m, &Mode::Normal, k) {
            let mut found = false;
            for chord in [
                vec![Key::LX],
                vec![Key::LJ],
                vec![Key::LW],
                vec![Key::LD, Key::Ctrl],
                vec![Key::UA, Key::Shift],
                vec![Key::Char('$')],
                vec![Key::LY, Key::Ctrl],
                vec![Key::LD, Key::LD],
                vec![Key::LG, Key::LG],
            ] {
                if m.get_mapping(&Mode::Normal, &chord) == Some(&cmds) {
                    found = true;
                }
            }
            assert!(found);
        }
    }
}

#[test]
fn chord_bound_in_normal_only_is_inert_elsewhere() {
    let m = scenario_mapper();
    for mode in [Mode::Insert, Mode::Command] {
        let mut r = Resolver::new();
        let out = feed_all(&mut r, &m, mode, &[Key::LG, Key::LG]);
        assert_eq!(out, vec![MatchOutcome::Pending, MatchOutcome::Pending]);
        assert!(r.pending().is_empty());
    }
}

#[test]
fn mode_is_chosen_per_key() {
    let m = Mapper::default();
    let mut r = Resolver::new();
    assert_eq!(r.feed(&m, &Mode::Normal, Key::LJ), matched(&[ReViCommand::CursorDown]));
    assert_eq!(r.feed(&m, &Mode::Insert, Key::LJ), MatchOutcome::Pending);
    assert_eq!(r.feed(&m, &Mode::Insert, Key::Enter), matched(&[ReViCommand::NewLine]));
    assert_eq!(
        r.feed(&m, &Mode::Command, Key::Enter),
        matched(&[ReViCommand::Mode(Mode::Normal)])
    );
}
