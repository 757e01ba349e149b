use gal_runtime::config::{var_get, Game, LoadLock, Paragraph, PluginsConfig};
use gal_runtime::value::RawValue;

fn para(tag: &str, title: &str) -> Paragraph {
    Paragraph { tag: tag.to_string(), title: Some(title.to_string()), texts: vec![], next: None }
}

fn game() -> Game {
    Game {
        title: "t".to_string(),
        author: "a".to_string(),
        paras: vec![
            ("en".to_string(), vec![para("p1", "English")]),
            ("ja".to_string(), vec![para("p1", "Japanese")]),
        ],
        plugins: PluginsConfig { dir: String::new(), modules: vec![] },
        bgs: String::new(),
        bgms: String::new(),
        videos: String::new(),
        res: vec![
            ("en".to_string(), vec![("ch_a".to_string(), RawValue::Str("Alice".to_string()))]),
            ("ja".to_string(), vec![]),
        ],
        base_lang: "en".to_string(),
    }
}

#[test]
fn unmatched_locale_uses_base_only() {
    let g = game();
    let (l, b) = g.find_para_fallback(None, Some("en".to_string()), &"p1".to_string()).unzip();
    assert!(l.is_none());
    assert_eq!(b.unwrap().title.as_deref(), Some("English"));
    let (l, b) = g.find_para_fallback(Some("fr".to_string()), Some("en".to_string()), &"p1".to_string()).unzip();
    assert!(l.is_none());
    assert_eq!(b.unwrap().title.as_deref(), Some("English"));
}

#[test]
fn same_key_as_base_suppresses_localized() {
    let g = game();
    let (l, b) = g.find_para_fallback(Some("en".to_string()), Some("en".to_string()), &"p1".to_string()).unzip();
    assert!(l.is_none());
    assert!(b.is_some());
}

#[test]
fn matched_locale_gives_both_sides() {
    let g = game();
    let (l, b) = g.find_para_fallback(Some("ja".to_string()), Some("en".to_string()), &"p1".to_string()).unzip();
    assert_eq!(l.unwrap().title.as_deref(), Some("Japanese"));
    assert_eq!(b.unwrap().title.as_deref(), Some("English"));
}

#[test]
fn unknown_tag_gives_nothing() {
    let g = game();
    let f = g.find_para_fallback(Some("ja".to_string()), Some("en".to_string()), &"nope".to_string());
    assert!(!f.is_some());
}

#[test]
fn resources_fall_back_the_same_way() {
    let g = game();
    let (l, b) = g.find_res_fallback(Some("fr".to_string()), Some("en".to_string())).unzip();
    assert!(l.is_none());
    assert_eq!(b.unwrap().len(), 1);
    let (l, b) = g.find_res_fallback(Some("ja".to_string()), None).unzip();
    assert_eq!(l.unwrap().len(), 0);
    assert_eq!(b.unwrap().len(), 1);
}

#[test]
fn var_get_takes_first_entry() {
    let m = vec![
        ("k".to_string(), RawValue::Num(1)),
        ("k".to_string(), RawValue::Num(2)),
    ];
    assert!(matches!(var_get(&m, &"k".to_string()), Some(RawValue::Num(1))));
    assert!(var_get(&m, &"x".to_string()).is_none());
}

#[test]
fn locales_are_listed_in_order() {
    let g = game();
    assert_eq!(g.para_locales(), vec!["en".to_string(), "ja".to_string()]);
    assert_eq!(g.res_locales(), vec!["en".to_string(), "ja".to_string()]);
}

#[test]
fn load_lock_keeps_first_value() {
    let mut lock: LoadLock<i32> = LoadLock::new("res/en.yaml".to_string());
    assert!(lock.get().is_none());
    lock.set(1);
    lock.set(2);
    assert_eq!(lock.get(), Some(&1));
    assert_eq!(lock.path(), "res/en.yaml");
}
