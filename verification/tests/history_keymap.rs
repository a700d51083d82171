use gitgud::action::Action;
use gitgud::history::History;
use gitgud::keymap::{key_to_action, Key, KeyCode, KeyKind, Modifiers};

fn key(code: KeyCode) -> Key {
    Key {
        code,
        modifiers: Modifiers {
            shift: false,
            control: false,
            alt: false,
            super_key: false,
            hyper: false,
            meta: false,
        },
        kind: KeyKind::Press,
    }
}

#[test]
fn history_keeps_last_and_drops_oldest_when_full() {
    let mut h = History::default();
    assert_eq!(h.last(), None);
    h.record("git status");
    assert_eq!(h.last(), Some("git status"));
    for i in 0..100 {
        h.record(&format!("git c{i}"));
    }
    assert_eq!(h.last(), Some("git c99"));
}

#[test]
fn keymap_table() {
    assert!(matches!(key_to_action(key(KeyCode::Char('q'))), Some(Action::Quit)));
    assert!(matches!(key_to_action(key(KeyCode::Char('j'))), Some(Action::MoveSelection(1))));
    assert!(matches!(key_to_action(key(KeyCode::Up)), Some(Action::MoveSelection(-1))));
    assert!(matches!(key_to_action(key(KeyCode::Tab)), Some(Action::SwitchPane)));
    assert!(matches!(key_to_action(key(KeyCode::BackTab)), Some(Action::SwitchPaneBack)));
    assert!(matches!(key_to_action(key(KeyCode::Char('X'))), Some(Action::DiscardSelected)));
    assert!(matches!(key_to_action(key(KeyCode::Esc)), Some(Action::Dismiss)));
    assert!(key_to_action(key(KeyCode::Char('z'))).is_none());
    let mut ctrl_c = key(KeyCode::Char('c'));
    assert!(matches!(key_to_action(ctrl_c), Some(Action::Commit)));
    ctrl_c.modifiers.control = true;
    assert!(matches!(key_to_action(ctrl_c), Some(Action::Quit)));
}
