use gal_runtime::action::Action;
use gal_runtime::config::{Game, Locale, Paragraph, PluginsConfig, RawContext, VarMap};
use gal_runtime::context::{all_parsed, parsed_or_empty, Context, FrontendType, Host};
use gal_runtime::fallback::Fallback;
use gal_runtime::script::{Command, Line, Loc, ParseError, Program, Text};
use gal_runtime::value::RawValue;

/// A host whose parser knows three forms: `@name` names the speaker,
/// `?text` is a switch whose program is `text`, and `{expr}` evaluates an
/// expression; a `$` is a parse error. Expressions evaluate to themselves,
/// but for `true` and `false`.
#[derive(Default)]
struct TestHost {
    reports: Vec<String>,
    parsed: Vec<String>,
    fail_plugins: bool,
}

impl Host for TestHost {
    fn choose_locale(&self, loc: &Locale, keys: &Vec<Locale>) -> Option<Locale> {
        keys.iter().find(|k| *k == loc).cloned()
    }

    fn parse(&self, text: &String) -> Result<Text, ParseError> {
        if let Some(i) = text.find('$') {
            return Err(ParseError { loc: Loc(i, i + 1), message: "unexpected `$`".to_string() });
        }
        if let Some(name) = text.strip_prefix('@') {
            return Ok(Text(vec![Line::Cmd(Command::Character(name.to_string(), String::new()))]));
        }
        if let Some(sw) = text.strip_prefix('?') {
            return Ok(Text(vec![Line::Cmd(Command::Switch {
                text: sw.to_string(),
                action: Program(sw.to_string()),
                enabled: Some(Program("false".to_string())),
            })]));
        }
        if let Some(expr) = text.strip_prefix('{').and_then(|t| t.strip_suffix('}')) {
            return Ok(Text(vec![Line::Cmd(Command::Exec(Program(expr.to_string())))]));
        }
        Ok(Text(vec![Line::Str(text.clone())]))
    }

    fn call(&mut self, expr: &Program, _res: &Fallback<&VarMap>, _locals: &mut VarMap) -> RawValue {
        match expr.0.as_str() {
            "true" => RawValue::Bool(true),
            "false" => RawValue::Bool(false),
            s => RawValue::Str(s.to_string()),
        }
    }

    fn call_text(&mut self, text: &Text, _res: &Fallback<&VarMap>, _locals: &mut VarMap) -> RawValue {
        let mut s = String::new();
        for l in &text.0 {
            if let Line::Str(t) = l {
                s.push_str(t);
            }
        }
        self.parsed.push(s.clone());
        RawValue::Str(s)
    }

    fn process_action(&mut self, _frontend: FrontendType, action: Action) -> Result<Action, String> {
        if self.fail_plugins {
            Err("plugin failed".to_string())
        } else {
            Ok(action)
        }
    }

    fn probe_asset(&self, _root: &String, _dir: &String, _name: &String, _ext: &str) -> Option<String> {
        None
    }

    fn report(&mut self, message: String) {
        self.reports.push(message);
    }
}

fn para(tag: &str, texts: &[&str], next: Option<&str>) -> Paragraph {
    Paragraph {
        tag: tag.to_string(),
        title: Some(format!("Title {tag}")),
        texts: texts.iter().map(|s| s.to_string()).collect(),
        next: next.map(|s| s.to_string()),
    }
}

fn game(paras: Vec<(&str, Vec<Paragraph>)>) -> Game {
    Game {
        title: "t".to_string(),
        author: "a".to_string(),
        paras: paras.into_iter().map(|(l, p)| (l.to_string(), p)).collect(),
        plugins: PluginsConfig { dir: String::new(), modules: vec![] },
        bgs: String::new(),
        bgms: String::new(),
        videos: String::new(),
        res: vec![(
            "en".to_string(),
            vec![("ch_alice".to_string(), RawValue::Str("Alice".to_string()))],
        )],
        base_lang: "en".to_string(),
    }
}

fn context(g: Game, loc: &str) -> Context<TestHost> {
    Context::new(g, FrontendType::Text, "/game".to_string(), TestHost::default(), loc.to_string())
}

#[test]
fn starts_at_first_base_paragraph() {
    let c = context(game(vec![("en", vec![para("start", &["Hi"], None)])]), "en");
    assert_eq!(c.ctx.cur_para, "start");
    assert_eq!(c.ctx.cur_act, 0);
}

#[test]
fn one_action_per_line_then_next_paragraph() {
    let g = game(vec![(
        "en",
        vec![para("a", &["one", "two", "three"], Some("b")), para("b", &["four"], None)],
    )]);
    let mut c = context(g, "en");
    for expected in ["one", "two", "three"] {
        let act = c.next_run().unwrap();
        assert_eq!(act.data.line, expected);
        assert_eq!(c.ctx.cur_para, "a");
    }
    assert_eq!(c.ctx.cur_act, 3);
    let act = c.next_run().unwrap();
    assert_eq!(act.data.line, "four");
    assert_eq!(c.ctx.cur_para, "b");
    assert_eq!(c.ctx.cur_act, 1);
    assert_eq!(c.host.parsed, vec!["b".to_string()]);
    assert_eq!(c.history.len(), 4);
}

#[test]
fn blank_lines_give_no_action_but_take_a_slot() {
    let g = game(vec![("en", vec![para("a", &["one", "~", "", "two"], None)])]);
    let mut c = context(g, "en");
    assert_eq!(c.next_run().unwrap().data.line, "one");
    assert_eq!(c.next_run().map(|a| a.data.line), None);
}

#[test]
fn story_end_is_final() {
    let g = game(vec![("en", vec![para("a", &["only"], None)])]);
    let mut c = context(g, "en");
    assert!(c.next_run().is_some());
    assert!(c.next_run().is_none());
    assert_eq!(c.ctx.cur_para, "");
    assert_eq!(c.ctx.cur_act, 0);
    for _ in 0..3 {
        assert!(c.next_run().is_none());
        assert_eq!(c.ctx.cur_para, "");
    }
}

#[test]
fn localized_line_falls_back_to_base() {
    let g = game(vec![
        ("en", vec![para("a", &["Hello", "Bye"], None)]),
        ("fr", vec![para("a", &["", "Salut"], None)]),
    ]);
    let mut c = context(g, "fr");
    assert_eq!(c.next_run().unwrap().data.line, "Hello");
    assert_eq!(c.next_run().unwrap().data.line, "Salut");
}

#[test]
fn commands_build_the_action() {
    let g = game(vec![("en", vec![para("a", &["@alice", "?Go", "{v}"], None)])]);
    let mut c = context(g, "en");
    let act = c.next_run().unwrap();
    assert_eq!(act.data.character.as_deref(), Some("Alice"));
    assert_eq!(act.data.para_title.as_deref(), Some("Title a"));
    let act = c.next_run().unwrap();
    assert_eq!(act.data.switches.len(), 1);
    assert_eq!(act.data.switches[0].text, "Go");
    assert!(!act.data.switches[0].enabled);
    assert_eq!(act.switch_actions[0].0, "Go");
    let act = c.next_run().unwrap();
    assert_eq!(act.data.line, "v");
    assert_eq!(c.history.len(), 2);
}

#[test]
fn parse_error_is_reported_and_gives_empty_line() {
    let g = game(vec![("en", vec![para("a", &["bad $ here"], None)])]);
    let mut c = context(g, "en");
    let act = c.next_run().unwrap();
    assert_eq!(act.data.line, "");
    assert_eq!(c.host.reports.len(), 1);
    assert!(c.host.reports[0].contains("act 1"));
    assert!(c.host.reports[0].contains("\n        ^\n"));
}

#[test]
fn check_finds_the_bad_line_and_goes_on() {
    let g = game(vec![
        ("en", vec![para("a", &["fine", "bad $"], Some("b")), para("b", &["also fine"], None)]),
        ("fr", vec![para("a", &["bien"], None)]),
    ]);
    let mut c = context(g, "en");
    assert!(!c.check());
    assert_eq!(c.host.reports.len(), 1);
    assert!(c.host.reports[0].contains("act 2"));
}

#[test]
fn check_passes_a_clean_bundle() {
    let g = game(vec![("en", vec![para("a", &["fine"], Some("a"))])]);
    let mut c = context(g, "en");
    assert!(c.check());
    assert!(c.host.reports.is_empty());
}

#[test]
fn cycle_without_lines_ends() {
    let g = game(vec![("en", vec![para("a", &[], Some("a"))])]);
    let mut c = context(g, "en");
    assert!(c.next_run().is_none());
    assert_eq!(c.host.reports.len(), 1);
}

#[test]
fn restored_context_resumes() {
    let g = game(vec![("en", vec![para("a", &["one", "two"], None)])]);
    let mut c = context(g, "en");
    c.init_context(RawContext { cur_para: "a".to_string(), cur_act: 1, locals: vec![] });
    assert_eq!(c.next_run().unwrap().data.line, "two");
    assert_eq!(c.locale(), "en");
}

#[test]
fn failing_plugin_gives_empty_action() {
    let g = game(vec![("en", vec![para("a", &["one", "two"], None)])]);
    let mut c = context(g, "en");
    c.host.fail_plugins = true;
    let act = c.next_run().unwrap();
    assert_eq!(act.data.line, "");
    assert!(act.data.character.is_none());
    assert_eq!(c.ctx.cur_act, 1);
    assert_eq!(c.ctx.cur_para, "a");
    assert!(c.history.is_empty());
    assert_eq!(c.host.reports.len(), 1);
}

#[test]
fn base_line_shows_where_localized_is_blank() {
    let g = game(vec![
        ("en", vec![para("a", &["Hello"], None)]),
        ("fr", vec![para("a", &["~"], None)]),
    ]);
    let mut c = context(g, "fr");
    let m = c.next_merged().unwrap();
    assert_eq!(m.data.line, "Hello");
    assert_eq!(m.data.para_title.as_deref(), Some("Title a"));
    assert_eq!(c.ctx.cur_act, 1);
    assert!(c.history.is_empty());
}

#[test]
fn missing_paragraph_keeps_state() {
    let g = game(vec![("en", vec![para("a", &["one"], None)])]);
    let mut c = context(g, "en");
    c.init_context(RawContext {
        cur_para: "nowhere".to_string(),
        cur_act: 3,
        locals: vec![("x".to_string(), RawValue::Num(1))],
    });
    assert!(c.next_run().is_none());
    assert_eq!(c.ctx.cur_para, "nowhere");
    assert_eq!(c.ctx.cur_act, 3);
    assert_eq!(c.ctx.locals.len(), 1);
    assert!(c.history.is_empty());
}

#[test]
fn check_each_gives_one_result_per_entry() {
    let g = game(vec![
        ("en", vec![para("a", &["fine", "bad $"], Some("b")), para("b", &["ok"], None)]),
        ("fr", vec![para("a", &["bien"], None)]),
    ]);
    let mut c = context(g, "en");
    assert_eq!(c.check_each(), vec![true, false, true, true, true]);
}

#[test]
fn check_of_empty_bundle_passes() {
    let g = game(vec![("en", vec![])]);
    let mut c = context(g, "en");
    assert!(c.check());
    assert!(c.check_each().is_empty());
}

#[test]
fn all_parsed_needs_every_result() {
    assert!(all_parsed(&vec![]));
    assert!(all_parsed(&vec![true, true]));
    assert!(!all_parsed(&vec![true, false, true]));
}

#[test]
fn parse_failure_gives_empty_line() {
    let err = ParseError { loc: Loc(0, 1), message: "m".to_string() };
    assert!(parsed_or_empty(Err(err)).0.is_empty());
    let t = parsed_or_empty(Ok(Text(vec![Line::Str("x".to_string())])));
    assert_eq!(t.0.len(), 1);
}

#[test]
fn new_starts_at_base_locale_first_paragraph() {
    let g = game(vec![
        ("fr", vec![para("f", &["x"], None)]),
        ("en", vec![para("e1", &["y"], None), para("e2", &["z"], None)]),
    ]);
    let c = context(g, "fr");
    assert_eq!(c.ctx.cur_para, "e1");
    assert_eq!(c.loc, "fr");
}
