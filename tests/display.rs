use tinykeys::app::TemplateApp;
use tinykeys::key::{Key, MAX_KEYS};
use tinykeys::layout::{lookup, table_keys, PhysicalKey};

const DEFAULT_LABELS: [&str; 12] = ["▽", "◀", "◆", "▶", "⋐", "⋑", "⋑", "⋐", "◀", "◆", "▶", "△"];

fn lit(app: &TemplateApp) -> Vec<usize> {
    (0..MAX_KEYS).filter(|&i| app.lamp_state(i)).collect()
}

#[test]
fn key_new_is_off() {
    let k = Key::new("X".to_string());
    assert_eq!(k.label, "X");
    assert!(!k.state);
}

#[test]
fn default_state() {
    let app = TemplateApp::default();
    assert_eq!(app.label(), "tinykeys");
    assert_eq!(app.current_key(), "");
    assert!(lit(&app).is_empty());
    for i in 0..MAX_KEYS {
        assert_eq!(app.lamp_label(i), DEFAULT_LABELS[i]);
    }
}

#[test]
fn press_and_release_space() {
    let mut app = TemplateApp::default();
    app.press(PhysicalKey::Space);
    assert_eq!(lit(&app), vec![7]);
    assert_eq!(app.current_key(), "SPC");
    app.release(PhysicalKey::Space);
    assert!(lit(&app).is_empty());
    assert_eq!(app.current_key(), "");
}

#[test]
fn press_escape() {
    let mut app = TemplateApp::default();
    app.press(PhysicalKey::Escape);
    assert_eq!(lit(&app), vec![5, 6]);
    assert_eq!(app.current_key(), "ESC");
}

#[test]
fn press_lights_exactly_listed_lamps() {
    let mut app = TemplateApp::default();
    app.press(PhysicalKey::A);
    app.press(PhysicalKey::Num2);
    assert_eq!(lit(&app), vec![0, 1, 2, 11]);
    assert_eq!(app.current_key(), "2");
}

#[test]
fn release_clears_exactly_listed_lamps() {
    let mut app = TemplateApp::default();
    app.press(PhysicalKey::Num7);
    app.press(PhysicalKey::Tab);
    app.release(PhysicalKey::Tab);
    assert_eq!(lit(&app), vec![0, 7, 8, 11]);
    assert_eq!(app.current_key(), "");
}

#[test]
fn release_clears_shared_lamp_of_held_key() {
    let mut app = TemplateApp::default();
    app.press(PhysicalKey::Escape);
    app.press(PhysicalKey::Enter);
    app.release(PhysicalKey::Enter);
    assert_eq!(lit(&app), vec![5]);
}

#[test]
fn press_twice_is_press_once() {
    let mut once = TemplateApp::default();
    once.press(PhysicalKey::X);
    let mut twice = TemplateApp::default();
    twice.press(PhysicalKey::X);
    twice.press(PhysicalKey::X);
    assert_eq!(lit(&once), lit(&twice));
    assert_eq!(lit(&twice), vec![0, 1, 2]);
    assert_eq!(once.current_key(), twice.current_key());
}

#[test]
fn unmapped_key_changes_nothing() {
    let mut app = TemplateApp::default();
    app.press(PhysicalKey::H);
    app.press(PhysicalKey::Y);
    assert_eq!(lit(&app), vec![7]);
    assert_eq!(app.current_key(), "H");
    app.release(PhysicalKey::I);
    assert_eq!(lit(&app), vec![7]);
    assert_eq!(app.current_key(), "H");
    assert!(lookup(PhysicalKey::M).is_none());
}

#[test]
fn lookup_gives_table_entry() {
    let (label, lamps) = lookup(PhysicalKey::Num9).unwrap();
    assert_eq!(label, "9");
    assert_eq!(lamps, vec![0, 8, 9, 11]);
    let (label, lamps) = lookup(PhysicalKey::Backspace).unwrap();
    assert_eq!(label, "BSPC");
    assert_eq!(lamps, vec![4]);
}

#[test]
fn table_lamps_in_range() {
    let keys = table_keys();
    assert_eq!(keys.len(), 34);
    for k in keys {
        let (_, lamps) = lookup(k).unwrap();
        assert!(lamps.iter().all(|&i| i < MAX_KEYS));
    }
}

#[test]
fn frame_press_then_release() {
    let mut app = TemplateApp::default();
    app.handle_keys(&vec![PhysicalKey::Space], &vec![]);
    assert_eq!(lit(&app), vec![7]);
    assert_eq!(app.current_key(), "SPC");
    app.handle_keys(&vec![], &vec![PhysicalKey::Space]);
    assert!(lit(&app).is_empty());
    assert_eq!(app.current_key(), "");
}

#[test]
fn frame_last_key_in_table_order_wins() {
    let mut app = TemplateApp::default();
    app.handle_keys(&vec![PhysicalKey::B, PhysicalKey::Space], &vec![]);
    assert_eq!(lit(&app), vec![0, 3, 7]);
    assert_eq!(app.current_key(), "B");
}

#[test]
fn frame_ignores_unmapped_keys() {
    let mut app = TemplateApp::default();
    app.handle_keys(&vec![PhysicalKey::U, PhysicalKey::Q], &vec![PhysicalKey::P]);
    assert_eq!(lit(&app), vec![1, 11]);
    assert_eq!(app.current_key(), "Q");
}

#[test]
fn restore_keeps_label_and_resets_lamps() {
    let mut app = TemplateApp::default();
    app.press(PhysicalKey::Num4);
    let saved = app.label().to_string();
    let back = TemplateApp::restore(saved);
    assert_eq!(back.label(), "tinykeys");
    assert_eq!(back.current_key(), "");
    assert!(lit(&back).is_empty());
    for i in 0..MAX_KEYS {
        assert_eq!(back.lamp_label(i), DEFAULT_LABELS[i]);
    }
}
