use revi_core::chord_table::{BindError, ChordTable};
use revi_core::key::Key;
use revi_core::keymapper::{key_builder, Mapper};
use revi_core::mode::Mode;
use revi_core::revi_command::ReViCommand;

#[test]
fn empty_chord_is_refused() {
    let r = Mapper::new().insert_mapping(&Mode::Normal, vec![], vec![ReViCommand::Save]);
    assert!(matches!(r, Err(BindError::EmptyChord)));
}

#[test]
fn table_bind_refuses_empty_chord_and_keeps_table() {
    let mut t = ChordTable::new();
    assert_eq!(t.bind(vec![Key::LA], vec![ReViCommand::Home]), Ok(()));
    assert_eq!(t.bind(vec![], vec![ReViCommand::End]), Err(BindError::EmptyChord));
    assert_eq!(t.lookup_exact(&[Key::LA]), Some(&vec![ReViCommand::Home]));
    assert_eq!(t.lookup_exact(&[]), None);
}

#[test]
fn insert_mapping_leaves_other_modes() {
    let m = Mapper::new()
        .insert_mapping(&Mode::Insert, vec![Key::Tab], vec![ReViCommand::InsertChar('\t')])
        .unwrap();
    assert_eq!(
        m.get_mapping(&Mode::Insert, &[Key::Tab]),
        Some(&vec![ReViCommand::InsertChar('\t')])
    );
    assert_eq!(m.get_mapping(&Mode::Normal, &[Key::Tab]), None);
    assert_eq!(m.get_mapping(&Mode::Command, &[Key::Tab]), None);
}

#[test]
fn default_normal_bindings() {
    let m = key_builder();
    assert_eq!(
        m.get_mapping(&Mode::Normal, &[Key::UZ, Key::Shift, Key::UZ, Key::Shift]),
        Some(&vec![ReViCommand::Save, ReViCommand::Quit])
    );
    assert_eq!(
        m.get_mapping(&Mode::Normal, &[Key::UO, Key::Shift]),
        Some(&vec![
            ReViCommand::Home,
            ReViCommand::NewLine,
            ReViCommand::Mode(Mode::Insert),
            ReViCommand::CursorUp,
        ])
    );
    assert_eq!(m.get_mapping(&Mode::Normal, &[Key::Char('$')]), Some(&vec![ReViCommand::End]));
    assert_eq!(m.get_mapping(&Mode::Normal, &[Key::UZ, Key::Shift]), None);
    assert_eq!(m.get_mapping(&Mode::Normal, &[Key::Enter]), None);
}

#[test]
fn default_insert_and_command_bindings() {
    let m = Mapper::default();
    assert_eq!(m.get_mapping(&Mode::Insert, &[Key::Backspace]), Some(&vec![ReViCommand::Backspace]));
    assert_eq!(m.get_mapping(&Mode::Insert, &[Key::LJ]), None);
    assert_eq!(
        m.get_mapping(&Mode::Command, &[Key::Enter]),
        Some(&vec![ReViCommand::Mode(Mode::Normal)])
    );
    assert_eq!(m.get_mapping(&Mode::Command, &[Key::Home]), None);
}

#[test]
fn prefix_queries() {
    let m = key_builder();
    let t = m.get_map(&Mode::Normal);
    assert!(t.has_prefix(&[Key::UZ, Key::Shift]));
    assert!(t.has_longer(&[Key::UZ, Key::Shift]));
    assert!(t.has_prefix(&[Key::LG, Key::LG]));
    assert!(!t.has_longer(&[Key::LG, Key::LG]));
    assert!(!t.has_prefix(&[Key::LG, Key::LX]));
    assert!(t.has_prefix(&[]));
    assert!(!ChordTable::new().has_prefix(&[]));
}

#[test]
fn rebinding_in_table_keeps_one_entry() {
    let mut t = ChordTable::new();
    t.bind(vec![Key::LA, Key::LB], vec![ReViCommand::Home]).unwrap();
    t.bind(vec![Key::LA, Key::LB], vec![ReViCommand::End]).unwrap();
    assert_eq!(t.lookup_exact(&[Key::LA, Key::LB]), Some(&vec![ReViCommand::End]));
    assert!(t.has_longer(&[Key::LA]));
    assert_eq!(t.lookup_exact(&[Key::LA]), None);
}
