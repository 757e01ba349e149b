use vstd::prelude::*;
use vstd::string::StringExecFns;

use crate::action::{
    copy_action, empty_action, is_merge_of, is_shown, merge_action, same_action, settle, Action,
    ActionData, Switch,
};
use crate::config::{
    chosen_key, deref_opt, find_para_spec, lookup, lookup_index, opt_locale, two_tier, var_get, Game, Locale, Paragraph,
    RawContext, VarMap,
};
use crate::diagnostic::rich_error;
use crate::fallback::{opt_str, Fallback};
use crate::script::{Command, Line, ParseError, Program, Text};
use crate::value::{str_of, RawValue};

verus! {

/// The kind of frontend that actions are prepared for.
#[derive(Clone, Copy, PartialEq, Eq, Debug)]
pub enum FrontendType {
    Text,
    Html,
}

/// What a session needs from its surroundings: the locale matcher, the
/// script parser, the expression evaluator and the plugins, the asset store,
/// and a place for diagnostics.
pub trait Host {
    /// The key among `keys` that best matches `loc`, if any does.
    fn choose_locale(&self, loc: &Locale, keys: &Vec<Locale>) -> Option<Locale>;

    /// Parses one line of script text.
    fn parse(&self, text: &String) -> Result<Text, ParseError>;

    /// Evaluates an expression against the resources and the session's
    /// locals.
    fn call(&mut self, expr: &Program, res: &Fallback<&VarMap>, locals: &mut VarMap) -> RawValue;

    /// Evaluates a parsed line as an expression.
    fn call_text(&mut self, text: &Text, res: &Fallback<&VarMap>, locals: &mut VarMap) -> RawValue;

    /// Runs the plugins over an action, in order.
    fn process_action(&mut self, frontend: FrontendType, action: Action) -> Result<Action, String>;

    /// The absolute path of asset `name` with extension `ext` under directory
    /// `dir` of the game root `root`, where that file exists.
    fn probe_asset(&self, root: &String, dir: &String, name: &String, ext: &str) -> Option<String>;

    /// Takes a diagnostic message.
    fn report(&mut self, message: String);
}

/// How far the opening of a game has come.
#[derive(Clone, Debug)]
pub enum OpenStatus {
    LoadProfile,
    CreateRuntime,
    /// A plugin is being loaded: its name, its index, and how many there are.
    LoadPlugin(String, usize, usize),
}

/// What the locale matcher chose for the current locale and for the base
/// locale, among the paragraph table's and the resource table's locales.
pub struct LocaleKeys {
    pub para: Option<Locale>,
    pub base_para: Option<Locale>,
    pub res: Option<Locale>,
    pub base_res: Option<Locale>,
}

/// A script line that stands for no line: empty, or the blank mark `~`.
pub open spec fn is_blank(s: Seq<char>) -> bool {
    s.len() == 0 || s == "~"@
}

/// The line at `i` of a paragraph, unless it is missing or blank.
pub open spec fn text_at(p: Option<Paragraph>, i: int) -> Option<Seq<char>> {
    match p {
        Some(p) => if 0 <= i < p.texts@.len() && !is_blank(p.texts@[i]@) {
            Some(p.texts@[i]@)
        } else {
            None
        },
        None => None,
    }
}

/// The `next` expression of two tiers of a paragraph: the localized one
/// where it has one, else the base one.
pub open spec fn next_of(p: (Option<Paragraph>, Option<Paragraph>)) -> Option<Seq<char>> {
    let l = match p.0 {
        Some(q) => opt_str(q.next),
        None => None,
    };
    if l is Some {
        l
    } else {
        match p.1 {
            Some(q) => opt_str(q.next),
            None => None,
        }
    }
}

fn clone_locale(o: &Option<Locale>) -> (r: Option<Locale>)
    ensures
        opt_locale(r) == opt_locale(*o),
{
    match o {
        Some(s) => Some(s.clone()),
        None => None,
    }
}

fn clone_opt_string(o: &Option<String>) -> (r: Option<String>)
    ensures
        opt_str(r) == opt_str(*o),
{
    match o {
        Some(s) => Some(s.clone()),
        None => None,
    }
}

fn is_blank_line(s: &String) -> (r: bool)
    ensures
        r == is_blank(s@),
{
    let tilde = String::from_str("~");
    s.as_str().is_empty() || s.eq(&tilde)
}

fn text_of(p: Option<&Paragraph>, i: usize) -> (r: Option<String>)
    ensures
        opt_str(r) == text_at(deref_opt(p), i as int),
        r is Some ==> i < usize::MAX,
{
    match p {
        Some(p) => {
            if i < p.texts.len() && !is_blank_line(&p.texts[i]) {
                Some(p.texts[i].clone())
            } else {
                None
            }
        },
        None => None,
    }
}

/// The first of two optional values that is there.
fn first_some(a: Option<String>, b: Option<String>) -> (r: Option<String>)
    ensures
        opt_str(r) == if a is Some {
            opt_str(a)
        } else {
            opt_str(b)
        },
{
    match a {
        Some(s) => Some(s),
        None => b,
    }
}

fn title_of(p: Option<&Paragraph>) -> (r: Option<String>)
    ensures
        opt_str(r) == match deref_opt(p) {
            Some(q) => opt_str(q.title),
            None => None,
        },
{
    match p {
        Some(p) => clone_opt_string(&p.title),
        None => None,
    }
}

fn next_expr_of(p: Option<&Paragraph>) -> (r: Option<String>)
    ensures
        opt_str(r) == match deref_opt(p) {
            Some(q) => opt_str(q.next),
            None => None,
        },
{
    match p {
        Some(p) => clone_opt_string(&p.next),
        None => None,
    }
}

/// The switch commands of a parsed line, in order: the text, the branch
/// program, and whether it comes without an enabled expression.
pub open spec fn switch_cmds(ls: Seq<Line>) -> Seq<(Seq<char>, Seq<char>, bool)>
    decreases ls.len(),
{
    if ls.len() == 0 {
        Seq::empty()
    } else {
        let pre = switch_cmds(ls.drop_last());
        match ls.last() {
            Line::Cmd(Command::Switch { text, action, enabled }) => pre.push(
                (text@, action.0@, enabled is None),
            ),
            _ => pre,
        }
    }
}

/// One switch and one branch for each switch command, in order, with its
/// text and its program; one without an enabled expression is enabled.
pub open spec fn switches_built(
    cmds: Seq<(Seq<char>, Seq<char>, bool)>,
    sw: Seq<Switch>,
    progs: Seq<Program>,
) -> bool {
    &&& sw.len() == cmds.len()
    &&& progs.len() == cmds.len()
    &&& forall|j: int|
        0 <= j < cmds.len() ==> {
            &&& #[trigger] sw[j].text@ == cmds[j].0
            &&& progs[j].0@ == cmds[j].1
            &&& cmds[j].2 ==> sw[j].enabled
        }
}

/// The asset name of the last background (kind 0), music (kind 1) or video
/// (kind 2) command of a parsed line.
pub open spec fn last_asset(ls: Seq<Line>, kind: int) -> Option<Seq<char>>
    decreases ls.len(),
{
    if ls.len() == 0 {
        None
    } else {
        match ls.last() {
            Line::Cmd(Command::Bg(n)) if kind == 0 => Some(n@),
            Line::Cmd(Command::Bgm(n)) if kind == 1 => Some(n@),
            Line::Cmd(Command::Video(n)) if kind == 2 => Some(n@),
            _ => last_asset(ls.drop_last(), kind),
        }
    }
}

/// The text of a parsed line that evaluates nothing: its literal text, with
/// a newline for each paragraph break. Nothing where an expression is
/// written into the line, since its value comes from the evaluator.
pub open spec fn plain_line(ls: Seq<Line>) -> Option<Seq<char>>
    decreases ls.len(),
{
    if ls.len() == 0 {
        Some(Seq::empty())
    } else {
        match plain_line(ls.drop_last()) {
            Some(pre) => match ls.last() {
                Line::Str(s) => Some(pre + s@),
                Line::Cmd(Command::Par) => Some(pre.push('\n')),
                Line::Cmd(Command::Exec(_)) => None,
                _ => Some(pre),
            },
            None => None,
        }
    }
}

/// The history after `r` is shown: `r` is added at the end where it has a
/// line or a speaker; else the history stays.
pub open spec fn history_after(old_h: Seq<Action>, new_h: Seq<Action>, r: Action) -> bool {
    if is_shown(r) {
        &&& new_h.len() == old_h.len() + 1
        &&& new_h.drop_last() == old_h
        &&& same_action(new_h.last(), r)
    } else {
        new_h == old_h
    }
}

/// The title of two tiers of a paragraph: the localized one where it has
/// one, else the base one.
pub open spec fn title_of_pair(p: (Option<Paragraph>, Option<Paragraph>)) -> Option<Seq<char>> {
    let l = match p.0 {
        Some(q) => opt_str(q.title),
        None => None,
    };
    if l is Some {
        l
    } else {
        match p.1 {
            Some(q) => opt_str(q.title),
            None => None,
        }
    }
}

/// The number of script lines and `next` expressions in a paragraph list.
pub open spec fn para_entries(ps: Seq<Paragraph>) -> nat
    decreases ps.len(),
{
    if ps.len() == 0 {
        0
    } else {
        para_entries(ps.drop_last()) + ps.last().texts@.len() + if ps.last().next is Some {
            1nat
        } else {
            0nat
        }
    }
}

/// The number of script lines and `next` expressions in all locales.
pub open spec fn game_entries(paras: Seq<(Locale, Vec<Paragraph>)>) -> nat
    decreases paras.len(),
{
    if paras.len() == 0 {
        0
    } else {
        game_entries(paras.drop_last()) + para_entries(paras.last().1@)
    }
}

/// Whether every result is true.
pub open spec fn all_true(v: Seq<bool>) -> bool {
    forall|i: int| 0 <= i < v.len() ==> #[trigger] v[i]
}

/// What a parse gives the story: the parsed line, or the empty line where
/// parsing failed.
pub fn parsed_or_empty(res: Result<Text, ParseError>) -> (r: Text)
    ensures
        res is Ok ==> r == res->Ok_0,
        res is Err ==> r.0@.len() == 0,
{
    match res {
        Ok(t) => t,
        Err(_) => Text::empty(),
    }
}

/// The tag of the first paragraph of the base locale, or the empty tag
/// where it has none.
pub open spec fn start_tag(g: Game) -> Seq<char> {
    match lookup(g.paras@, g.base_lang@) {
        Some(ps) => if ps@.len() > 0 {
            ps@[0].tag@
        } else {
            Seq::empty()
        },
        None => Seq::empty(),
    }
}

/// The last speaker command of a parsed line: its key and its override.
pub open spec fn last_speaker(ls: Seq<Line>) -> Option<(Seq<char>, Seq<char>)>
    decreases ls.len(),
{
    if ls.len() == 0 {
        None
    } else {
        match ls.last() {
            Line::Cmd(Command::Character(k, a)) => Some((k@, a@)),
            _ => last_speaker(ls.drop_last()),
        }
    }
}

/// The two sides of an action built from line `act` of the current paragraph of `c`: a side is
/// there exactly where the current paragraph has a line on that side, and
/// carries the paragraph's title.
pub open spec fn built_from_line<H: Host>(c: Context<H>, act: int, a: Fallback<Action>) -> bool {
    let p = c.paragraph_spec();
    &&& (a.localized() is Some) == (text_at(p.0, act) is Some)
    &&& (a.base() is Some) == (text_at(p.1, act) is Some)
    &&& a.localized() is Some ==> opt_str(a.localized().unwrap().data.para_title)
        == title_of_pair(p)
    &&& a.base() is Some ==> opt_str(a.base().unwrap().data.para_title) == title_of_pair(p)
}

/// An interactive session over a game: the position in the story, and what
/// has been shown so far.
pub struct Context<H: Host> {
    pub game: Game,
    pub frontend: FrontendType,
    pub root_path: String,
    pub host: H,
    pub loc: Locale,
    pub keys: LocaleKeys,
    pub ctx: RawContext,
    pub history: Vec<Action>,
}

impl<H: Host> Context<H> {
    /// What the locale matcher chose among the paragraph table's locales, for
    /// the current locale and for the base locale.
    pub open spec fn para_matches(&self) -> (Option<Seq<char>>, Option<Seq<char>>) {
        (opt_locale(self.keys.para), opt_locale(self.keys.base_para))
    }

    /// The current paragraph, in two tiers.
    pub open spec fn paragraph_spec(&self) -> (Option<Paragraph>, Option<Paragraph>) {
        let key = chosen_key(self.game.paras@, self.para_matches().0, self.game.base_lang@);
        let base_key = chosen_key(self.game.paras@, self.para_matches().1, self.game.base_lang@);
        two_tier(
            key,
            base_key,
            find_para_spec(self.game.paras@, key, self.ctx.cur_para@),
            find_para_spec(self.game.paras@, base_key, self.ctx.cur_para@),
        )
    }

    /// Whether a line stands at the current act, on either side.
    pub open spec fn has_text_spec(&self) -> bool {
        text_at(self.paragraph_spec().0, self.ctx.cur_act as int) is Some || text_at(
            self.paragraph_spec().1,
            self.ctx.cur_act as int,
        ) is Some
    }

    /// The current paragraph is there, has no line at the current act and
    /// no `next` expression, and no paragraph has the empty tag: the story
    /// ends.
    pub open spec fn ends_here(&self) -> bool {
        let key = chosen_key(self.game.paras@, self.para_matches().0, self.game.base_lang@);
        let base_key = chosen_key(self.game.paras@, self.para_matches().1, self.game.base_lang@);
        &&& self.paragraph_spec() != (None::<Paragraph>, None::<Paragraph>)
        &&& !self.has_text_spec()
        &&& next_of(self.paragraph_spec()) is None
        &&& find_para_spec(self.game.paras@, key, Seq::empty()) is None
        &&& find_para_spec(self.game.paras@, base_key, Seq::empty()) is None
    }

    /// A session over `game` in locale `loc`, positioned at the start of the
    /// story.
    pub fn new(game: Game, frontend: FrontendType, root_path: String, host: H, loc: Locale) -> (r:
        Self)
        ensures
            r.game == game,
            r.loc == loc,
            r.ctx.cur_para@ == start_tag(game),
            r.ctx.cur_act == 0,
            r.ctx.locals@.len() == 0,
            r.history@.len() == 0,
    {
        let keys = LocaleKeys { para: None, base_para: None, res: None, base_res: None };
        let ctx = RawContext { cur_para: String::new(), cur_act: 0, locals: Vec::new() };
        let mut c = Context {
            game,
            frontend,
            root_path,
            host,
            loc: String::new(),
            keys,
            ctx,
            history: Vec::new(),
        };
        c.set_locale(loc);
        c.init_new();
        c
    }

    /// Starts the story anew: at the first paragraph of the base locale, or
    /// nowhere when it has none.
    pub fn init_new(&mut self)
        ensures
            final(self).game == old(self).game,
            final(self).para_matches() == old(self).para_matches(),
            final(self).keys == old(self).keys,
            final(self).loc == old(self).loc,
            final(self).loc == old(self).loc,
            final(self).ctx.cur_para@ == start_tag(old(self).game),
            final(self).ctx.cur_act == 0,
            final(self).ctx.locals@.len() == 0,
            final(self).history@ == old(self).history@,
    {
        let tag = match lookup_index(&self.game.paras, &self.game.base_lang) {
            Some(i) => {
                if self.game.paras[i].1.len() > 0 {
                    self.game.paras[i].1[0].tag.clone()
                } else {
                    String::new()
                }
            },
            None => String::new(),
        };
        if tag.as_str().is_empty() {
            self.host.report(String::from_str("There is no paragraph in the game."));
        }
        self.init_context(RawContext { cur_para: tag, cur_act: 0, locals: Vec::new() });
    }

    /// Resumes from a saved state.
    pub fn init_context(&mut self, ctx: RawContext)
        ensures
            final(self).ctx == ctx,
            final(self).loc == old(self).loc,
            final(self).game == old(self).game,
            final(self).para_matches() == old(self).para_matches(),
            final(self).keys == old(self).keys,
            final(self).loc == old(self).loc,
            final(self).history@ == old(self).history@,
    {
        self.ctx = ctx;
    }

    /// Switches to locale `loc`, asking the locale matcher once for the keys
    /// it stands for.
    pub fn set_locale(&mut self, loc: Locale)
        ensures
            final(self).loc == loc,
            final(self).game == old(self).game,
            final(self).ctx == old(self).ctx,
            final(self).history@ == old(self).history@,
    {
        let para_keys = self.game.para_locales();
        let res_keys = self.game.res_locales();
        let para = self.host.choose_locale(&loc, &para_keys);
        let base_para = self.host.choose_locale(&self.game.base_lang, &para_keys);
        let res = self.host.choose_locale(&loc, &res_keys);
        let base_res = self.host.choose_locale(&self.game.base_lang, &res_keys);
        self.keys = LocaleKeys { para, base_para, res, base_res };
        self.loc = loc;
    }

    pub fn locale(&self) -> (r: &Locale)
        ensures
            r == self.loc,
    {
        &self.loc
    }

    fn current_paragraph(&self) -> (r: Fallback<&Paragraph>)
        ensures
            (deref_opt(r.localized()), deref_opt(r.base())) == self.paragraph_spec(),
    {
        self.game.find_para_fallback(
            clone_locale(&self.keys.para),
            clone_locale(&self.keys.base_para),
            &self.ctx.cur_para,
        )
    }

    fn current_text(&self) -> (r: Fallback<String>)
        ensures
            opt_str(r.localized()) == text_at(self.paragraph_spec().0, self.ctx.cur_act as int),
            opt_str(r.base()) == text_at(self.paragraph_spec().1, self.ctx.cur_act as int),
            (r.localized() is Some || r.base() is Some) ==> self.ctx.cur_act < usize::MAX,
    {
        let (p, base_p) = self.current_paragraph().unzip();
        Fallback::new(text_of(p, self.ctx.cur_act), text_of(base_p, self.ctx.cur_act))
    }

    /// Evaluates an expression of the script.
    pub fn call(&mut self, expr: &Program) -> (r: RawValue)
        ensures
            final(self).game == old(self).game,
            final(self).keys == old(self).keys,
            final(self).para_matches() == old(self).para_matches(),
            final(self).keys == old(self).keys,
            final(self).loc == old(self).loc,
            final(self).ctx.cur_para == old(self).ctx.cur_para,
            final(self).ctx.cur_act == old(self).ctx.cur_act,
            final(self).history@ == old(self).history@,
    {
        let res = self.game.find_res_fallback(
            clone_locale(&self.keys.res),
            clone_locale(&self.keys.base_res),
        );
        self.host.call(expr, &res, &mut self.ctx.locals)
    }

    /// The text of resource `k`: the localized resource where there is one,
    /// else the base one.
    pub open spec fn resource_text(&self, k: Seq<char>) -> Option<Seq<char>> {
        let res = self.game.res@;
        let key = chosen_key(res, opt_locale(self.keys.res), self.game.base_lang@);
        let base_key = chosen_key(res, opt_locale(self.keys.base_res), self.game.base_lang@);
        let tiers = two_tier(key, base_key, lookup(res, key), lookup(res, base_key));
        let found = match tiers.0 {
            Some(m) => lookup(m@, k),
            None => None,
        };
        match found {
            Some(v) => Some(str_of(v)),
            None => match tiers.1 {
                Some(m) => match lookup(m@, k) {
                    Some(v) => Some(str_of(v)),
                    None => None,
                },
                None => None,
            },
        }
    }

    /// The speaker that a parsed line names: by the last speaker command, its
    /// override where that is not empty, else resource `ch_<key>`.
    pub open spec fn speaker_of(&self, ls: Seq<Line>) -> Option<Seq<char>> {
        match last_speaker(ls) {
            Some((k, a)) => if a.len() == 0 {
                self.resource_text("ch_"@ + k)
            } else {
                Some(a)
            },
            None => None,
        }
    }

    /// The speaker named by resource `ch_<key>`: the localized resource
    /// where there is one, else the base one.
    fn character_name(&self, key: &String) -> (r: Option<String>)
        ensures
            opt_str(r) == self.resource_text("ch_"@ + key@),
    {
        let mut res_key = String::from_str("ch_");
        res_key.append(key.as_str());
        let (res, base_res) = self.game.find_res_fallback(
            clone_locale(&self.keys.res),
            clone_locale(&self.keys.base_res),
        ).unzip();
        let found = match res {
            Some(m) => var_get(m, &res_key),
            None => None,
        };
        match found {
            Some(v) => Some(v.get_str()),
            None => match base_res {
                Some(m) => match var_get(m, &res_key) {
                    Some(v) => Some(v.get_str()),
                    None => None,
                },
                None => None,
            },
        }
    }

    /// The first file of asset `name` under `dir` with one of `exts`, tried
    /// in order.
    fn resolve_asset(&self, dir: &String, name: Option<String>, exts: Vec<&str>) -> (r: Option<
        String,
    >)
        ensures
            name is None ==> r is None,
    {
        match name {
            Some(n) => {
                let mut i: usize = 0;
                while i < exts.len()
                    invariant
                        i <= exts@.len(),
                        name is Some,
                    decreases exts@.len() - i,
                {
                    let found = self.host.probe_asset(&self.root_path, dir, &n, exts[i]);
                    if found.is_some() {
                        return found;
                    }
                    i = i + 1;
                }
                None
            },
            None => None,
        }
    }

    /// Turns a parsed line into an action: literal text and evaluated
    /// expressions make up the line, commands set the speaker, the switches
    /// and the assets.
    fn exact_text(&mut self, para_title: Option<String>, t: Text) -> (r: Action)
        ensures
            opt_str(r.data.para_title) == opt_str(para_title),
            opt_str(r.data.character) == old(self).speaker_of(t.0@),
            plain_line(t.0@) is Some ==> r.data.line@ == plain_line(t.0@).unwrap(),
            switches_built(switch_cmds(t.0@), r.data.switches@, r.switch_actions@),
            last_asset(t.0@, 0) is None ==> r.data.bg is None,
            last_asset(t.0@, 1) is None ==> r.data.bgm is None,
            last_asset(t.0@, 2) is None ==> r.data.video is None,
            final(self).game == old(self).game,
            final(self).para_matches() == old(self).para_matches(),
            final(self).keys == old(self).keys,
            final(self).loc == old(self).loc,
            final(self).ctx.cur_para == old(self).ctx.cur_para,
            final(self).ctx.cur_act == old(self).ctx.cur_act,
            final(self).history@ == old(self).history@,
    {
        let mut lines = String::new();
        let mut chname: Option<String> = None;
        let mut switches: Vec<Switch> = Vec::new();
        let mut switch_actions: Vec<Program> = Vec::new();
        let mut bg: Option<String> = None;
        let mut bgm: Option<String> = None;
        let mut video: Option<String> = None;
        let mut i: usize = 0;
        while i < t.0.len()
            invariant
                i <= t.0@.len(),
                switches_built(switch_cmds(t.0@.take(i as int)), switches@, switch_actions@),
                opt_str(bg) == last_asset(t.0@.take(i as int), 0),
                opt_str(bgm) == last_asset(t.0@.take(i as int), 1),
                opt_str(video) == last_asset(t.0@.take(i as int), 2),
                opt_str(chname) == old(self).speaker_of(t.0@.take(i as int)),
                plain_line(t.0@.take(i as int)) is Some ==> lines@ == plain_line(
                    t.0@.take(i as int),
                ).unwrap(),
                self.game == old(self).game,
                self.keys == old(self).keys,
                self.loc == old(self).loc,
                self.para_matches() == old(self).para_matches(),
                self.ctx.cur_para == old(self).ctx.cur_para,
                self.ctx.cur_act == old(self).ctx.cur_act,
                self.history@ == old(self).history@,
            decreases t.0@.len() - i,
        {
            assert(t.0@.take(i as int + 1).drop_last() =~= t.0@.take(i as int));
            match &t.0[i] {
                Line::Str(s) => lines.append(s.as_str()),
                Line::Cmd(cmd) => match cmd {
                    Command::Par => crate::value::push_char(&mut lines, '\n'),
                    Command::Character(key, alter) => {
                        chname = if alter.as_str().is_empty() {
                            self.character_name(key)
                        } else {
                            Some(alter.clone())
                        };
                    },
                    Command::Exec(p) => {
                        let v = self.call(p);
                        let s = v.get_str();
                        lines.append(s.as_str());
                    },
                    Command::Switch { text, action, enabled } => {
                        let enabled = match enabled {
                            Some(p) => self.call(p).get_bool(),
                            None => true,
                        };
                        switches.push(Switch { text: text.clone(), enabled });
                        switch_actions.push(Program(action.0.clone()));
                    },
                    Command::Bg(name) => bg = Some(name.clone()),
                    Command::Bgm(name) => bgm = Some(name.clone()),
                    Command::Video(name) => video = Some(name.clone()),
                },
            }
            i = i + 1;
        }
        assert(t.0@.take(t.0@.len() as int) =~= t.0@);
        let bg = self.resolve_asset(&self.game.bgs, bg, vec!["jpg", "png"]);
        let bgm = self.resolve_asset(&self.game.bgms, bgm, vec!["mp3"]);
        let video = self.resolve_asset(&self.game.videos, video, vec!["mp4"]);
        Action {
            data: ActionData {
                line: lines,
                character: chname,
                para_title,
                switches,
                bg,
                bgm,
                video,
            },
            switch_actions,
        }
    }

    /// Runs the plugins over an action; one that fails is reported and
    /// replaced by the empty action. An action with a line or a speaker is
    /// added to the history.
    fn process_action(&mut self, action: Action) -> (r: Action)
        ensures
            final(self).game == old(self).game,
            final(self).keys == old(self).keys,
            final(self).loc == old(self).loc,
            final(self).ctx == old(self).ctx,
            history_after(old(self).history@, final(self).history@, r),
    {
        let res = self.host.process_action(self.frontend, action);
        match &res {
            Ok(_) => {},
            Err(e) => {
                let mut msg = String::from_str("Error when processing action: ");
                msg.append(e.as_str());
                self.host.report(msg);
            },
        }
        let action = settle(res);
        if !action.data.line.as_str().is_empty() || action.data.character.is_some() {
            let kept = copy_action(&action);
            self.history.push(kept);
        }
        proof {
            if is_shown(action) {
                assert(self.history@.drop_last() =~= old(self).history@);
            }
        }
        action
    }

    /// The title of the current paragraph: the localized one where it has
    /// one, else the base one.
    fn current_title(&self) -> (r: Option<String>)
        ensures
            opt_str(r) == title_of_pair(self.paragraph_spec()),
    {
        let (p, base_p) = self.current_paragraph().unzip();
        first_some(title_of(p), title_of(base_p))
    }

    fn report_parse_error(&mut self, text: &String, e: &ParseError)
        ensures
            final(self).game == old(self).game,
            final(self).para_matches() == old(self).para_matches(),
            final(self).keys == old(self).keys,
            final(self).loc == old(self).loc,
            final(self).ctx.cur_para == old(self).ctx.cur_para,
            final(self).ctx.cur_act == old(self).ctx.cur_act,
            final(self).history@ == old(self).history@,
    {
        let title = self.current_title();
        let act = if self.ctx.cur_act < usize::MAX - 1 {
            self.ctx.cur_act
        } else {
            usize::MAX - 2
        };
        let msg = rich_error(text.as_str(), e, title.as_ref(), act);
        self.host.report(msg);
    }

    /// Parses a line; a parse error is reported and gives the empty line.
    fn parse_text_rich_error(&mut self, text: &String) -> (r: Text)
        ensures
            final(self).game == old(self).game,
            final(self).para_matches() == old(self).para_matches(),
            final(self).keys == old(self).keys,
            final(self).loc == old(self).loc,
            final(self).ctx.cur_para == old(self).ctx.cur_para,
            final(self).ctx.cur_act == old(self).ctx.cur_act,
            final(self).history@ == old(self).history@,
    {
        let res = self.host.parse(text);
        match &res {
            Ok(_) => {},
            Err(e) => self.report_parse_error(text, e),
        }
        parsed_or_empty(res)
    }

    /// Whether a line parses; a parse error is reported.
    fn check_text_rich_error(&mut self, text: &String) -> (r: bool)
        ensures
            final(self).game == old(self).game,
            final(self).para_matches() == old(self).para_matches(),
            final(self).keys == old(self).keys,
            final(self).loc == old(self).loc,
            final(self).ctx.cur_para == old(self).ctx.cur_para,
            final(self).ctx.cur_act == old(self).ctx.cur_act,
            final(self).history@ == old(self).history@,
    {
        match self.host.parse(text) {
            Ok(_) => true,
            Err(e) => {
                self.report_parse_error(text, &e);
                false
            },
        }
    }

    /// Moves to the paragraph named by the value of a `next` expression, or
    /// nowhere where there is none, at its first line.
    pub fn advance(&mut self, next: Option<RawValue>)
        ensures
            final(self).ctx.cur_para@ == match next {
                Some(v) => str_of(v),
                None => Seq::<char>::empty(),
            },
            final(self).ctx.cur_act == 0,
            final(self).ctx.locals == old(self).ctx.locals,
            final(self).game == old(self).game,
            final(self).para_matches() == old(self).para_matches(),
            final(self).keys == old(self).keys,
            final(self).loc == old(self).loc,
            final(self).history@ == old(self).history@,
    {
        self.ctx.cur_para = match next {
            Some(v) => v.get_str(),
            None => String::new(),
        };
        self.ctx.cur_act = 0;
    }

    /// The number of paragraphs in all locales, at most `usize::MAX`.
    fn paragraph_count(&self) -> (r: usize) {
        let mut total: usize = 0;
        let mut i: usize = 0;
        while i < self.game.paras.len()
            invariant
                i <= self.game.paras@.len(),
            decreases self.game.paras@.len() - i,
        {
            let n = self.game.paras[i].1.len();
            total = if n <= usize::MAX - total {
                total + n
            } else {
                usize::MAX
            };
            i = i + 1;
        }
        total
    }

    /// The next step of the story. A line at the current act gives one
    /// action and moves to the next act. A paragraph without a line there
    /// is left for the one that its `next` expression names, or for none
    /// where it has no `next`; the story ends where no paragraph is found.
    /// A chain of paragraph changes longer than the game has paragraphs,
    /// with no line on the way, is taken for a cycle and ends the story.
    pub fn next_run(&mut self) -> (r: Option<Action>)
        ensures
            final(self).game == old(self).game,
            final(self).para_matches() == old(self).para_matches(),
            final(self).keys == old(self).keys,
            final(self).loc == old(self).loc,
            old(self).paragraph_spec() == (None::<Paragraph>, None::<Paragraph>) ==> {
                &&& r is None
                &&& final(self).ctx == old(self).ctx
            },
            old(self).has_text_spec() ==> {
                &&& r is Some
                &&& final(self).ctx.cur_para == old(self).ctx.cur_para
                &&& final(self).ctx.cur_act == old(self).ctx.cur_act + 1
            },
            old(self).ends_here() ==> {
                &&& r is None
                &&& final(self).ctx.cur_para@ == Seq::<char>::empty()
                &&& final(self).ctx.cur_act == 0
            },
            r is None ==> final(self).history@ == old(self).history@,
            r is None ==> final(self).paragraph_spec() == (None::<Paragraph>, None::<Paragraph>)
                || !final(self).has_text_spec(),
            r is Some ==> history_after(old(self).history@, final(self).history@, r.unwrap()),
    {
        match self.next_merged() {
            Some(m) => Some(self.process_action(m)),
            None => None,
        }
    }

    /// The next step of the story, before the plugins see it: as `next_run`,
    /// but giving the merge of the actions built from the two sides of the
    /// current line.
    pub fn next_merged(&mut self) -> (r: Option<Action>)
        ensures
            final(self).game == old(self).game,
            final(self).para_matches() == old(self).para_matches(),
            final(self).keys == old(self).keys,
            final(self).loc == old(self).loc,
            final(self).keys == old(self).keys,
            final(self).loc == old(self).loc,
            final(self).history@ == old(self).history@,
            old(self).paragraph_spec() == (None::<Paragraph>, None::<Paragraph>) ==> {
                &&& r is None
                &&& final(self).ctx == old(self).ctx
            },
            old(self).has_text_spec() ==> {
                &&& r is Some
                &&& final(self).ctx.cur_para == old(self).ctx.cur_para
                &&& final(self).ctx.cur_act == old(self).ctx.cur_act + 1
            },
            r is Some ==> {
                &&& final(self).ctx.cur_act >= 1
                &&& exists|a: Fallback<Action>| #[trigger]
                    is_merge_of(a, r.unwrap()) && built_from_line(
                        *final(self),
                        final(self).ctx.cur_act - 1,
                        a,
                    )
            },
            r is None ==> final(self).paragraph_spec() == (None::<Paragraph>, None::<Paragraph>)
                || !final(self).has_text_spec(),
            r is Some && !old(self).has_text_spec() ==> {
                &&& final(self).ctx.cur_act == 1
                &&& final(self).ctx.cur_para@ == Seq::<char>::empty() || exists|v: RawValue|
                    final(self).ctx.cur_para@ == #[trigger] str_of(v)
            },
            old(self).ends_here() ==> {
                &&& r is None
                &&& final(self).ctx.cur_para@ == Seq::<char>::empty()
                &&& final(self).ctx.cur_act == 0
            },
    {
        let count = self.paragraph_count();
        let bound = if count < usize::MAX {
            count + 1
        } else {
            count
        };
        let mut jumps: usize = 0;
        loop
            invariant
                1 <= bound,
                jumps <= bound,
                self.game == old(self).game,
                self.para_matches() == old(self).para_matches(),
                self.keys == old(self).keys,
                self.loc == old(self).loc,
                self.history@ == old(self).history@,
                jumps == 0 ==> self.ctx == old(self).ctx,
                jumps > 0 ==> self.ctx.cur_act == 0,
                jumps > 0 ==> (self.ctx.cur_para@ == Seq::<char>::empty() || exists|v: RawValue|
                    self.ctx.cur_para@ == #[trigger] str_of(v)),
                jumps > 0 ==> old(self).paragraph_spec() != (None::<Paragraph>, None::<Paragraph>)
                    && !old(self).has_text_spec(),
                old(self).ends_here() ==> jumps <= 1 && (jumps == 1 ==> self.ctx.cur_para@
                    == Seq::<char>::empty() && self.ctx.cur_act == 0),
            decreases bound - jumps,
        {
            let cur_para = self.current_paragraph();
            if !cur_para.is_some() {
                return None;
            }
            let (p, base_p) = cur_para.unzip();
            let title = first_some(title_of(p), title_of(base_p));
            let next = first_some(next_expr_of(p), next_expr_of(base_p));
            let cur_text = self.current_text();
            if cur_text.is_some() {
                let (t, base_t) = cur_text.unzip();
                let act = match t {
                    Some(t) => {
                        let parsed = self.parse_text_rich_error(&t);
                        Some(self.exact_text(clone_opt_string(&title), parsed))
                    },
                    None => None,
                };
                let base_act = match base_t {
                    Some(t) => {
                        let parsed = self.parse_text_rich_error(&t);
                        Some(self.exact_text(clone_opt_string(&title), parsed))
                    },
                    None => None,
                };
                self.ctx.cur_act = self.ctx.cur_act + 1;
                let actions = Fallback::new(act, base_act);
                let ghost sides = actions;
                let merged = merge_action(actions);
                proof {
                    assert(is_merge_of(sides, merged.unwrap()) && built_from_line(
                        *self,
                        self.ctx.cur_act - 1,
                        sides,
                    ));
                }
                return merged;
            } else {
                if jumps >= bound {
                    self.host.report(
                        String::from_str("The paragraphs change in a cycle without a line."),
                    );
                    return None;
                }
                let value = match next {
                    Some(n) => {
                        let parsed = self.parse_text_rich_error(&n);
                        let res = self.game.find_res_fallback(
                            clone_locale(&self.keys.res),
                            clone_locale(&self.keys.base_res),
                        );
                        Some(self.host.call_text(&parsed, &res, &mut self.ctx.locals))
                    },
                    None => None,
                };
                self.advance(value);
                jumps = jumps + 1;
            }
        }
    }

    /// Parses every line and every `next` expression of every paragraph in
    /// every locale, in order, reporting each error; one result per entry,
    /// true where it parsed.
    pub fn check_each(&mut self) -> (r: Vec<bool>)
        ensures
            r@.len() == game_entries(old(self).game.paras@),
            final(self).game == old(self).game,
            final(self).para_matches() == old(self).para_matches(),
            final(self).keys == old(self).keys,
            final(self).loc == old(self).loc,
            final(self).history@ == old(self).history@,
    {
        let mut results: Vec<bool> = Vec::new();
        let mut i: usize = 0;
        while i < self.game.paras.len()
            invariant
                i <= self.game.paras@.len(),
                results@.len() == game_entries(self.game.paras@.take(i as int)),
                self.game == old(self).game,
                self.para_matches() == old(self).para_matches(),
                self.keys == old(self).keys,
                self.loc == old(self).loc,
                self.history@ == old(self).history@,
            decreases self.game.paras@.len() - i,
        {
            let ghost before = results@.len();
            let mut j: usize = 0;
            while j < self.game.paras[i].1.len()
                invariant
                    i < self.game.paras@.len(),
                    j <= self.game.paras@[i as int].1@.len(),
                    results@.len() == before + para_entries(
                        self.game.paras@[i as int].1@.take(j as int),
                    ),
                    self.game == old(self).game,
                    self.para_matches() == old(self).para_matches(),
                    self.keys == old(self).keys,
                    self.loc == old(self).loc,
                    self.history@ == old(self).history@,
                decreases self.game.paras@[i as int].1@.len() - j,
            {
                let ghost start = results@.len();
                self.ctx.cur_para = self.game.paras[i].1[j].tag.clone();
                let mut k: usize = 0;
                while k < self.game.paras[i].1[j].texts.len()
                    invariant
                        i < self.game.paras@.len(),
                        j < self.game.paras@[i as int].1@.len(),
                        k <= self.game.paras@[i as int].1@[j as int].texts@.len(),
                        results@.len() == start + k,
                        self.game == old(self).game,
                        self.para_matches() == old(self).para_matches(),
                        self.keys == old(self).keys,
                        self.loc == old(self).loc,
                        self.history@ == old(self).history@,
                    decreases self.game.paras@[i as int].1@[j as int].texts@.len() - k,
                {
                    self.ctx.cur_act = k;
                    let text = self.game.paras[i].1[j].texts[k].clone();
                    let ok = self.check_text_rich_error(&text);
                    results.push(ok);
                    k = k + 1;
                }
                let next = clone_opt_string(&self.game.paras[i].1[j].next);
                match next {
                    Some(n) => {
                        let ok = self.check_text_rich_error(&n);
                        results.push(ok);
                    },
                    None => {},
                }
                proof {
                    let ps = self.game.paras@[i as int].1@;
                    assert(ps.take(j as int + 1).drop_last() =~= ps.take(j as int));
                    assert(ps.take(j as int + 1).last() == ps[j as int]);
                }
                j = j + 1;
            }
            proof {
                let g = self.game.paras@;
                assert(g.take(i as int + 1).drop_last() =~= g.take(i as int));
                assert(g.take(i as int + 1).last() == g[i as int]);
                assert(g[i as int].1@.take(g[i as int].1@.len() as int) =~= g[i as int].1@);
            }
            i = i + 1;
        }
        proof {
            assert(self.game.paras@.take(self.game.paras@.len() as int) =~= self.game.paras@);
        }
        results
    }

    /// Parses every line and every `next` expression of every paragraph in
    /// every locale, reporting each error, and tells whether all of them
    /// parsed: one result for each entry, all of them true.
    pub fn check(&mut self) -> (r: bool)
        ensures
            exists|v: Seq<bool>|
                v.len() == game_entries(old(self).game.paras@) && r == #[trigger] all_true(v),
            game_entries(old(self).game.paras@) == 0 ==> r,
            final(self).game == old(self).game,
            final(self).para_matches() == old(self).para_matches(),
            final(self).keys == old(self).keys,
            final(self).loc == old(self).loc,
            final(self).history@ == old(self).history@,
    {
        let results = self.check_each();
        let r = all_parsed(&results);
        assert(results@.len() == game_entries(old(self).game.paras@) && r == all_true(results@));
        r
    }
}

/// Whether every result is true.
pub fn all_parsed(v: &Vec<bool>) -> (r: bool)
    ensures
        r == all_true(v@),
{
    let mut i: usize = 0;
    while i < v.len()
        invariant
            i <= v@.len(),
            forall|j: int| 0 <= j < i ==> #[trigger] v@[j],
        decreases v@.len() - i,
    {
        if !v[i] {
            return false;
        }
        i = i + 1;
    }
    true
}

/// A paragraph none of whose lines is blank has a line at each act below
/// the number of its lines and none at that number: `next_run` gives one
/// action per line, then leaves the paragraph.
pub proof fn lemma_one_action_per_line(p: Paragraph, k: int)
    requires
        forall|i: int| 0 <= i < p.texts@.len() ==> !is_blank(#[trigger] p.texts@[i]@),
        0 <= k <= p.texts@.len(),
    ensures
        k < p.texts@.len() ==> text_at(Some(p), k) == Some(p.texts@[k]@),
        k == p.texts@.len() ==> text_at(Some(p), k) is None,
{
}

/// Once the story has ended at the empty tag, and no paragraph has that
/// tag, no paragraph is current: every later `next_run` gives nothing and
/// keeps the position.
pub proof fn lemma_end_is_final<H: Host>(c: Context<H>)
    requires
        c.ctx.cur_para@ == Seq::<char>::empty(),
        find_para_spec(
            c.game.paras@,
            chosen_key(c.game.paras@, c.para_matches().0, c.game.base_lang@),
            Seq::empty(),
        ) is None,
        find_para_spec(
            c.game.paras@,
            chosen_key(c.game.paras@, c.para_matches().1, c.game.base_lang@),
            Seq::empty(),
        ) is None,
    ensures
        c.paragraph_spec() == (None::<Paragraph>, None::<Paragraph>),
{
}

} // verus!
