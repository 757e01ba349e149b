use gal_runtime::action::{copy_action, empty_action, merge_action, settle, Action, ActionData, Switch};
use gal_runtime::fallback::Fallback;
use gal_runtime::script::Program;

fn action(line: &str, switches: Vec<(&str, bool)>, programs: Vec<&str>) -> Action {
    Action {
        data: ActionData {
            line: line.to_string(),
            character: None,
            para_title: None,
            switches: switches
                .into_iter()
                .map(|(t, e)| Switch { text: t.to_string(), enabled: e })
                .collect(),
            bg: None,
            bgm: None,
            video: None,
        },
        switch_actions: programs.into_iter().map(|p| Program(p.to_string())).collect(),
    }
}

#[test]
fn empty_localized_line_uses_base() {
    let merged = merge_action(Fallback::new(Some(action("", vec![], vec![])), Some(action("Hello", vec![], vec![])))).unwrap();
    assert_eq!(merged.data.line, "Hello");
}

#[test]
fn localized_line_wins_when_filled() {
    let merged = merge_action(Fallback::new(Some(action("Bonjour", vec![], vec![])), Some(action("Hello", vec![], vec![])))).unwrap();
    assert_eq!(merged.data.line, "Bonjour");
}

#[test]
fn base_decides_enabled() {
    let merged = merge_action(Fallback::new(
        Some(action("a", vec![("Oui", false)], vec!["x"])),
        Some(action("a", vec![("Yes", true)], vec!["y"])),
    ))
    .unwrap();
    assert_eq!(merged.data.switches.len(), 1);
    assert_eq!(merged.data.switches[0].text, "Oui");
    assert!(merged.data.switches[0].enabled);
    assert_eq!(merged.switch_actions[0].0, "x");
}

#[test]
fn switches_zip_by_position() {
    let merged = merge_action(Fallback::new(
        Some(action("a", vec![("A", true), ("B", true)], vec!["pa", "pb"])),
        Some(action("a", vec![("X", false)], vec!["px"])),
    ))
    .unwrap();
    assert_eq!(merged.data.switches.len(), 2);
    assert_eq!(merged.data.switches[0].text, "A");
    assert!(!merged.data.switches[0].enabled);
    assert_eq!(merged.data.switches[1].text, "B");
    assert!(merged.data.switches[1].enabled);
    assert_eq!(merged.switch_actions.len(), 2);
    assert_eq!(merged.switch_actions[1].0, "pb");
}

#[test]
fn switch_text_and_program_fall_back_when_empty() {
    let merged = merge_action(Fallback::new(
        Some(action("a", vec![("", true)], vec![""])),
        Some(action("a", vec![("Go", true)], vec!["jump"])),
    ))
    .unwrap();
    assert_eq!(merged.data.switches[0].text, "Go");
    assert_eq!(merged.switch_actions[0].0, "jump");
}

#[test]
fn optional_fields_take_first_filled() {
    let mut l = action("a", vec![], vec![]);
    l.data.character = Some(String::new());
    l.data.bg = Some("/l/bg.png".to_string());
    let mut b = action("b", vec![], vec![]);
    b.data.character = Some("Alice".to_string());
    b.data.bg = Some("/b/bg.png".to_string());
    b.data.video = Some("/b/v.mp4".to_string());
    let merged = merge_action(Fallback::new(Some(l), Some(b))).unwrap();
    assert_eq!(merged.data.character.as_deref(), Some("Alice"));
    assert_eq!(merged.data.bg.as_deref(), Some("/l/bg.png"));
    assert_eq!(merged.data.video.as_deref(), Some("/b/v.mp4"));
    assert_eq!(merged.data.bgm, None);
}

#[test]
fn nothing_merges_from_nothing() {
    assert!(merge_action(Fallback::new(None, None)).is_none());
}

#[test]
fn only_base_side_is_kept() {
    let merged = merge_action(Fallback::new(None, Some(action("Hi", vec![("S", false)], vec!["p"])))).unwrap();
    assert_eq!(merged.data.line, "Hi");
    assert!(!merged.data.switches[0].enabled);
}

#[test]
fn settle_keeps_plugin_result_or_empties() {
    let a = settle(Ok(action("Hi", vec![("S", true)], vec!["p"])));
    assert_eq!(a.data.line, "Hi");
    let e = settle(Err("boom".to_string()));
    assert_eq!(e.data.line, "");
    assert!(e.data.switches.is_empty());
    assert!(e.switch_actions.is_empty());
}

#[test]
fn copy_action_keeps_every_field() {
    let mut a = action("Hi", vec![("S", false)], vec!["p"]);
    a.data.character = Some("Bob".to_string());
    a.data.bgm = Some("/m.mp3".to_string());
    let c = copy_action(&a);
    assert_eq!(c.data.line, "Hi");
    assert_eq!(c.data.character.as_deref(), Some("Bob"));
    assert_eq!(c.data.bgm.as_deref(), Some("/m.mp3"));
    assert_eq!(c.data.switches[0].text, "S");
    assert!(!c.data.switches[0].enabled);
    assert_eq!(c.switch_actions[0].0, "p");
    assert_eq!(empty_action().data.line, "");
}
