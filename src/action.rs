use vstd::prelude::*;

use crate::fallback::{
    first_filled, max_len, opt_at, opt_str, opt_vec, seq_or_empty, Fallback, FallbackVecIter,
};
use crate::script::Program;

verus! {

/// A choice offered to the player.
#[derive(Clone, Debug)]
pub struct Switch {
    pub text: String,
    pub enabled: bool,
}

/// What a frontend shows for one step of the story.
#[derive(Clone, Debug)]
pub struct ActionData {
    pub line: String,
    pub character: Option<String>,
    pub para_title: Option<String>,
    pub switches: Vec<Switch>,
    pub bg: Option<String>,
    pub bgm: Option<String>,
    pub video: Option<String>,
}

/// One resolved step of the story: what is shown, and the branch that each
/// switch runs when chosen (one per switch).
#[derive(Clone, Debug)]
pub struct Action {
    pub data: ActionData,
    pub switch_actions: Vec<Program>,
}

/// A `Fallback<Action>` taken apart into its two parts.
pub struct FallbackAction {
    pub data: Fallback<ActionData>,
    pub switch_actions: Fallback<Vec<Program>>,
}

/// A `Fallback<ActionData>` taken apart field by field.
pub struct FallbackActionData {
    pub line: Fallback<String>,
    pub character: Fallback<String>,
    pub para_title: Fallback<String>,
    pub switches: Fallback<Vec<Switch>>,
    pub bg: Fallback<String>,
    pub bgm: Fallback<String>,
    pub video: Fallback<String>,
}

/// A `Fallback<Switch>` taken apart field by field.
pub struct FallbackSwitch {
    pub text: Fallback<String>,
    pub enabled: Fallback<bool>,
}

pub open spec fn or_empty(o: Option<Seq<char>>) -> Seq<char> {
    match o {
        Some(s) => s,
        None => Seq::empty(),
    }
}

pub open spec fn data_of(a: Option<Action>) -> Option<ActionData> {
    match a {
        Some(a) => Some(a.data),
        None => None,
    }
}

pub open spec fn line_of(d: Option<ActionData>) -> Option<Seq<char>> {
    match d {
        Some(d) => Some(d.line@),
        None => None,
    }
}

/// An optional text field of one side, as a string.
pub open spec fn field_of(
    d: Option<ActionData>,
    f: spec_fn(ActionData) -> Option<String>,
) -> Option<Seq<char>> {
    match d {
        Some(d) => opt_str(f(d)),
        None => None,
    }
}

pub open spec fn switches_of(d: Option<ActionData>) -> Seq<Switch> {
    match d {
        Some(d) => d.switches@,
        None => Seq::empty(),
    }
}

pub open spec fn programs_of(a: Option<Action>) -> Seq<Program> {
    match a {
        Some(a) => a.switch_actions@,
        None => Seq::empty(),
    }
}

pub open spec fn switch_text(s: Option<Switch>) -> Option<Seq<char>> {
    match s {
        Some(s) => Some(s.text@),
        None => None,
    }
}

pub open spec fn program_text(p: Option<Program>) -> Option<Seq<char>> {
    match p {
        Some(p) => Some(p.0@),
        None => None,
    }
}

/// The merged text of the switch at `i`: the first side whose text is not
/// empty.
pub open spec fn merged_switch_text(l: Seq<Switch>, b: Seq<Switch>, i: int) -> Seq<char> {
    or_empty(first_filled(switch_text(opt_at(l, i)), switch_text(opt_at(b, i))))
}

/// The merged enabled flag of the switch at `i`: the base side decides when
/// it has a switch there; else the localized side; else it is enabled.
pub open spec fn merged_switch_enabled(l: Seq<Switch>, b: Seq<Switch>, i: int) -> bool {
    if 0 <= i < b.len() {
        b[i].enabled
    } else if 0 <= i < l.len() {
        l[i].enabled
    } else {
        true
    }
}

pub open spec fn merged_program(l: Seq<Program>, b: Seq<Program>, i: int) -> Seq<char> {
    or_empty(first_filled(program_text(opt_at(l, i)), program_text(opt_at(b, i))))
}

/// The merged switches of two lists of switches, position by position.
pub open spec fn switches_merged(l: Seq<Switch>, b: Seq<Switch>, r: Seq<Switch>) -> bool {
    &&& r.len() == max_len(l.len() as int, b.len() as int)
    &&& forall|i: int|
        0 <= i < r.len() ==> {
            &&& #[trigger] r[i].text@ == merged_switch_text(l, b, i)
            &&& r[i].enabled == merged_switch_enabled(l, b, i)
        }
}

pub open spec fn programs_merged(l: Seq<Program>, b: Seq<Program>, r: Seq<Program>) -> bool {
    &&& r.len() == max_len(l.len() as int, b.len() as int)
    &&& forall|i: int| 0 <= i < r.len() ==> #[trigger] r[i].0@ == merged_program(l, b, i)
}

/// `r` is what merging the two sides of `a` gives, field by field.
pub open spec fn is_merge_of(a: Fallback<Action>, r: Action) -> bool {
    let l = data_of(a.localized());
    let b = data_of(a.base());
    &&& r.data.line@ == or_empty(first_filled(line_of(l), line_of(b)))
    &&& opt_str(r.data.character) == first_filled(
        field_of(l, |d: ActionData| d.character),
        field_of(b, |d: ActionData| d.character),
    )
    &&& opt_str(r.data.para_title) == first_filled(
        field_of(l, |d: ActionData| d.para_title),
        field_of(b, |d: ActionData| d.para_title),
    )
    &&& opt_str(r.data.bg) == first_filled(
        field_of(l, |d: ActionData| d.bg),
        field_of(b, |d: ActionData| d.bg),
    )
    &&& opt_str(r.data.bgm) == first_filled(
        field_of(l, |d: ActionData| d.bgm),
        field_of(b, |d: ActionData| d.bgm),
    )
    &&& opt_str(r.data.video) == first_filled(
        field_of(l, |d: ActionData| d.video),
        field_of(b, |d: ActionData| d.video),
    )
    &&& switches_merged(switches_of(l), switches_of(b), r.data.switches@)
    &&& programs_merged(programs_of(a.localized()), programs_of(a.base()), r.switch_actions@)
}

impl Fallback<Action> {
    /// Splits into the data and the switch actions, each still in two tiers.
    pub fn fallback(self) -> (r: FallbackAction)
        ensures
            r.data.localized() == data_of(self.localized()),
            r.data.base() == data_of(self.base()),
            opt_vec(r.switch_actions.localized()) == match self.localized() {
                Some(a) => Some(a.switch_actions@),
                None => None::<Seq<Program>>,
            },
            opt_vec(r.switch_actions.base()) == match self.base() {
                Some(a) => Some(a.switch_actions@),
                None => None::<Seq<Program>>,
            },
    {
        let (act, base_act) = self.unzip();
        let (data, sactions) = match act {
            Some(act) => (Some(act.data), Some(act.switch_actions)),
            None => (None, None),
        };
        let (base_data, base_sactions) = match base_act {
            Some(act) => (Some(act.data), Some(act.switch_actions)),
            None => (None, None),
        };
        FallbackAction {
            data: Fallback::new(data, base_data),
            switch_actions: Fallback::new(sactions, base_sactions),
        }
    }
}

impl Fallback<ActionData> {
    /// Splits into one two-tier value per field.
    pub fn fallback(self) -> (r: FallbackActionData)
        ensures
            opt_str(r.line.localized()) == line_of(self.localized()),
            opt_str(r.line.base()) == line_of(self.base()),
            opt_str(r.character.localized()) == field_of(
                self.localized(),
                |d: ActionData| d.character,
            ),
            opt_str(r.character.base()) == field_of(self.base(), |d: ActionData| d.character),
            opt_str(r.para_title.localized()) == field_of(
                self.localized(),
                |d: ActionData| d.para_title,
            ),
            opt_str(r.para_title.base()) == field_of(self.base(), |d: ActionData| d.para_title),
            opt_str(r.bg.localized()) == field_of(self.localized(), |d: ActionData| d.bg),
            opt_str(r.bg.base()) == field_of(self.base(), |d: ActionData| d.bg),
            opt_str(r.bgm.localized()) == field_of(self.localized(), |d: ActionData| d.bgm),
            opt_str(r.bgm.base()) == field_of(self.base(), |d: ActionData| d.bgm),
            opt_str(r.video.localized()) == field_of(self.localized(), |d: ActionData| d.video),
            opt_str(r.video.base()) == field_of(self.base(), |d: ActionData| d.video),
            seq_or_empty(opt_vec(r.switches.localized())) == switches_of(self.localized()),
            seq_or_empty(opt_vec(r.switches.base())) == switches_of(self.base()),
            r.switches.localized() is Some == self.localized() is Some,
            r.switches.base() is Some == self.base() is Some,
    {
        let (data, base_data) = self.unzip();
        let (line, ch, title, sw, bg, bgm, video) = match data {
            Some(d) => (Some(d.line), d.character, d.para_title, Some(d.switches), d.bg, d.bgm, d.video),
            None => (None, None, None, None, None, None, None),
        };
        let (base_line, base_ch, base_title, base_sw, base_bg, base_bgm, base_video) =
            match base_data {
            Some(d) => (Some(d.line), d.character, d.para_title, Some(d.switches), d.bg, d.bgm, d.video),
            None => (None, None, None, None, None, None, None),
        };
        FallbackActionData {
            line: Fallback::new(line, base_line),
            character: Fallback::new(ch, base_ch),
            para_title: Fallback::new(title, base_title),
            switches: Fallback::new(sw, base_sw),
            bg: Fallback::new(bg, base_bg),
            bgm: Fallback::new(bgm, base_bgm),
            video: Fallback::new(video, base_video),
        }
    }
}

impl Fallback<Switch> {
    /// Splits into the text and the enabled flag, each in two tiers.
    pub fn fallback(self) -> (r: FallbackSwitch)
        ensures
            opt_str(r.text.localized()) == switch_text(self.localized()),
            opt_str(r.text.base()) == switch_text(self.base()),
            r.enabled.localized() == match self.localized() {
                Some(s) => Some(s.enabled),
                None => None::<bool>,
            },
            r.enabled.base() == match self.base() {
                Some(s) => Some(s.enabled),
                None => None::<bool>,
            },
    {
        let (s, base_s) = self.unzip();
        let (text, enabled) = match s {
            Some(s) => (Some(s.text), Some(s.enabled)),
            None => (None, None),
        };
        let (base_text, base_enabled) = match base_s {
            Some(s) => (Some(s.text), Some(s.enabled)),
            None => (None, None),
        };
        FallbackSwitch {
            text: Fallback::new(text, base_text),
            enabled: Fallback::new(enabled, base_enabled),
        }
    }
}

fn string_or_empty(o: Option<String>) -> (r: String)
    ensures
        r@ == or_empty(opt_str(o)),
{
    match o {
        Some(s) => s,
        None => String::new(),
    }
}

/// Merges the switches of two sides position by position.
pub fn merge_switches(switches: Fallback<Vec<Switch>>) -> (r: Vec<Switch>)
    ensures
        switches_merged(
            seq_or_empty(opt_vec(switches.localized())),
            seq_or_empty(opt_vec(switches.base())),
            r@,
        ),
{
    let ghost l = seq_or_empty(opt_vec(switches.localized()));
    let ghost b = seq_or_empty(opt_vec(switches.base()));

    let mut it: FallbackVecIter<Switch> = switches.into_iter();
    let mut out: Vec<Switch> = Vec::new();
    loop
        invariant
            l == seq_or_empty(opt_vec(switches.localized())),
            b == seq_or_empty(opt_vec(switches.base())),
            out@.len() <= max_len(l.len() as int, b.len() as int),
            it.rest_localized() == if out@.len() <= l.len() {
                l.skip(out@.len() as int)
            } else {
                Seq::<Switch>::empty()
            },
            it.rest_base() == if out@.len() <= b.len() {
                b.skip(out@.len() as int)
            } else {
                Seq::<Switch>::empty()
            },
            it.remaining() == max_len(l.len() as int, b.len() as int) - out@.len(),
            forall|i: int|
                0 <= i < out@.len() ==> {
                    &&& #[trigger] out@[i].text@ == merged_switch_text(l, b, i)
                    &&& out@[i].enabled == merged_switch_enabled(l, b, i)
                },
        decreases it.remaining(),
    {
        let ghost k = out@.len() as int;
        match it.next() {
            Some(s) => {
                let parts = s.fallback();
                let text = string_or_empty(parts.text.and_any());
                let (enabled, base_enabled) = parts.enabled.unzip();
                let enabled = match base_enabled {
                    Some(e) => e,
                    None => match enabled {
                        Some(e) => e,
                        None => true,
                    },
                };
                out.push(Switch { text, enabled });
                proof {
                    assert(opt_at(l, k) == opt_at(l.skip(k), 0) || k >= l.len());
                    assert(opt_at(b, k) == opt_at(b.skip(k), 0) || k >= b.len());
                    if k < l.len() {
                        assert(l.skip(k).drop_first() =~= l.skip(k + 1));
                    }
                    if k < b.len() {
                        assert(b.skip(k).drop_first() =~= b.skip(k + 1));
                    }
                    if k == l.len() {
                        assert(l.skip(k) =~= Seq::<Switch>::empty());
                    }
                    if k == b.len() {
                        assert(b.skip(k) =~= Seq::<Switch>::empty());
                    }
                }
            },
            None => {
                return out;
            },
        }
    }
}

fn program_or_empty(p: Fallback<Program>) -> (r: Program)
    ensures
        r.0@ == or_empty(first_filled(program_text(p.localized()), program_text(p.base()))),
{
    let (p, base_p) = p.unzip();
    let text = match p {
        Some(p) => Some(p.0),
        None => None,
    };
    let base_text = match base_p {
        Some(p) => Some(p.0),
        None => None,
    };
    Program(string_or_empty(Fallback::new(text, base_text).and_any()))
}

/// Merges the switch actions of two sides position by position.
pub fn merge_programs(programs: Fallback<Vec<Program>>) -> (r: Vec<Program>)
    ensures
        programs_merged(
            seq_or_empty(opt_vec(programs.localized())),
            seq_or_empty(opt_vec(programs.base())),
            r@,
        ),
{
    let ghost l = seq_or_empty(opt_vec(programs.localized()));
    let ghost b = seq_or_empty(opt_vec(programs.base()));

    let mut it: FallbackVecIter<Program> = programs.into_iter();
    let mut out: Vec<Program> = Vec::new();
    loop
        invariant
            l == seq_or_empty(opt_vec(programs.localized())),
            b == seq_or_empty(opt_vec(programs.base())),
            out@.len() <= max_len(l.len() as int, b.len() as int),
            it.rest_localized() == if out@.len() <= l.len() {
                l.skip(out@.len() as int)
            } else {
                Seq::<Program>::empty()
            },
            it.rest_base() == if out@.len() <= b.len() {
                b.skip(out@.len() as int)
            } else {
                Seq::<Program>::empty()
            },
            it.remaining() == max_len(l.len() as int, b.len() as int) - out@.len(),
            forall|i: int| 0 <= i < out@.len() ==> #[trigger] out@[i].0@ == merged_program(l, b, i),
        decreases it.remaining(),
    {
        let ghost k = out@.len() as int;
        match it.next() {
            Some(p) => {
                out.push(program_or_empty(p));
                proof {
                    assert(opt_at(l, k) == opt_at(l.skip(k), 0) || k >= l.len());
                    assert(opt_at(b, k) == opt_at(b.skip(k), 0) || k >= b.len());
                    if k < l.len() {
                        assert(l.skip(k).drop_first() =~= l.skip(k + 1));
                    }
                    if k < b.len() {
                        assert(b.skip(k).drop_first() =~= b.skip(k + 1));
                    }
                    if k == l.len() {
                        assert(l.skip(k) =~= Seq::<Program>::empty());
                    }
                    if k == b.len() {
                        assert(b.skip(k) =~= Seq::<Program>::empty());
                    }
                }
            },
            None => {
                return out;
            },
        }
    }
}

/// Merges the two sides of an action into one, field by field: the first
/// side with a non-empty value wins, the localized side first; switches and
/// their actions are paired by position, and the enabled flag of a switch
/// comes from the base side where it has one. Nothing comes out when both
/// sides are missing.
pub fn merge_action(actions: Fallback<Action>) -> (r: Option<Action>)
    ensures
        r is Some == (actions.localized() is Some || actions.base() is Some),
        r is Some ==> is_merge_of(actions, r.unwrap()),
{
    if actions.is_some() {
        let parts = actions.fallback();
        let data = parts.data.fallback();
        let line = string_or_empty(data.line.and_any());
        let character = data.character.and_any();
        let para_title = data.para_title.and_any();
        let switches = merge_switches(data.switches);
        let bg = data.bg.and_any();
        let bgm = data.bgm.and_any();
        let video = data.video.and_any();
        let switch_actions = merge_programs(parts.switch_actions);
        Some(Action {
            data: ActionData { line, character, para_title, switches, bg, bgm, video },
            switch_actions,
        })
    } else {
        None
    }
}

/// Two actions show the same: equal texts, flags and programs, field by
/// field.
pub open spec fn same_action(a: Action, b: Action) -> bool {
    &&& a.data.line@ == b.data.line@
    &&& opt_str(a.data.character) == opt_str(b.data.character)
    &&& opt_str(a.data.para_title) == opt_str(b.data.para_title)
    &&& opt_str(a.data.bg) == opt_str(b.data.bg)
    &&& opt_str(a.data.bgm) == opt_str(b.data.bgm)
    &&& opt_str(a.data.video) == opt_str(b.data.video)
    &&& a.data.switches@.len() == b.data.switches@.len()
    &&& forall|i: int|
        0 <= i < a.data.switches@.len() ==> {
            &&& #[trigger] a.data.switches@[i].text@ == b.data.switches@[i].text@
            &&& a.data.switches@[i].enabled == b.data.switches@[i].enabled
        }
    &&& a.switch_actions@.len() == b.switch_actions@.len()
    &&& forall|i: int|
        0 <= i < a.switch_actions@.len() ==> #[trigger] a.switch_actions@[i].0@
            == b.switch_actions@[i].0@
}

/// An action that shows nothing.
pub open spec fn is_empty_action(a: Action) -> bool {
    &&& a.data.line@.len() == 0
    &&& a.data.character is None
    &&& a.data.para_title is None
    &&& a.data.switches@.len() == 0
    &&& a.data.bg is None
    &&& a.data.bgm is None
    &&& a.data.video is None
    &&& a.switch_actions@.len() == 0
}

/// An action worth keeping in the history: it has a line or a speaker.
pub open spec fn is_shown(a: Action) -> bool {
    a.data.line@.len() > 0 || a.data.character is Some
}

fn copy_opt(o: &Option<String>) -> (r: Option<String>)
    ensures
        opt_str(r) == opt_str(*o),
{
    match o {
        Some(s) => Some(s.clone()),
        None => None,
    }
}

/// A copy of an action.
pub fn copy_action(a: &Action) -> (r: Action)
    ensures
        same_action(r, *a),
{
    let mut switches: Vec<Switch> = Vec::new();
    let mut i: usize = 0;
    while i < a.data.switches.len()
        invariant
            i <= a.data.switches@.len(),
            switches@.len() == i,
            forall|j: int|
                0 <= j < i ==> {
                    &&& #[trigger] switches@[j].text@ == a.data.switches@[j].text@
                    &&& switches@[j].enabled == a.data.switches@[j].enabled
                },
        decreases a.data.switches@.len() - i,
    {
        let s = &a.data.switches[i];
        switches.push(Switch { text: s.text.clone(), enabled: s.enabled });
        i = i + 1;
    }
    let mut programs: Vec<Program> = Vec::new();
    let mut k: usize = 0;
    while k < a.switch_actions.len()
        invariant
            k <= a.switch_actions@.len(),
            programs@.len() == k,
            forall|j: int| 0 <= j < k ==> #[trigger] programs@[j].0@ == a.switch_actions@[j].0@,
        decreases a.switch_actions@.len() - k,
    {
        programs.push(Program(a.switch_actions[k].0.clone()));
        k = k + 1;
    }
    Action {
        data: ActionData {
            line: a.data.line.clone(),
            character: copy_opt(&a.data.character),
            para_title: copy_opt(&a.data.para_title),
            switches,
            bg: copy_opt(&a.data.bg),
            bgm: copy_opt(&a.data.bgm),
            video: copy_opt(&a.data.video),
        },
        switch_actions: programs,
    }
}

/// An action that shows nothing.
pub fn empty_action() -> (r: Action)
    ensures
        is_empty_action(r),
{
    Action {
        data: ActionData {
            line: String::new(),
            character: None,
            para_title: None,
            switches: Vec::new(),
            bg: None,
            bgm: None,
            video: None,
        },
        switch_actions: Vec::new(),
    }
}

/// What comes of the plugins' result: the action they gave back, or the
/// empty action where they failed.
pub fn settle(res: Result<Action, String>) -> (r: Action)
    ensures
        res is Ok ==> r == res->Ok_0,
        res is Err ==> is_empty_action(r),
{
    match res {
        Ok(a) => a,
        Err(_) => empty_action(),
    }
}

/// An empty localized line falls back to the base line.
pub proof fn lemma_merge_line_falls_back(a: Fallback<Action>, r: Action)
    requires
        is_merge_of(a, r),
        a.localized() is Some,
        a.localized().unwrap().data.line@.len() == 0,
        a.base() is Some,
    ensures
        r.data.line@ == a.base().unwrap().data.line@,
{
}

/// Where both sides have a switch at the same position, the merged switch is
/// enabled exactly when the base switch is.
pub proof fn lemma_merge_enabled_prefers_base(a: Fallback<Action>, r: Action, i: int)
    requires
        is_merge_of(a, r),
        a.localized() is Some,
        a.base() is Some,
        0 <= i < a.localized().unwrap().data.switches@.len(),
        0 <= i < a.base().unwrap().data.switches@.len(),
    ensures
        i < r.data.switches@.len(),
        r.data.switches@[i].enabled == a.base().unwrap().data.switches@[i].enabled,
{
    assert(r.data.switches@[i].text@ == merged_switch_text(
        switches_of(data_of(a.localized())),
        switches_of(data_of(a.base())),
        i,
    ));
}

/// Switch lists are paired by position: the merged list is as long as the
/// longer side, and past the end of the base list each switch is the
/// localized one, its text and its enabled flag.
pub proof fn lemma_merge_switches_zip(a: Fallback<Action>, r: Action, i: int)
    requires
        is_merge_of(a, r),
        a.localized() is Some,
        a.base() is Some,
        a.base().unwrap().data.switches@.len() <= i < a.localized().unwrap().data.switches@.len(),
    ensures
        r.data.switches@.len() == max_len(
            a.localized().unwrap().data.switches@.len() as int,
            a.base().unwrap().data.switches@.len() as int,
        ),
        r.data.switches@[i].text@ == a.localized().unwrap().data.switches@[i].text@,
        r.data.switches@[i].enabled == a.localized().unwrap().data.switches@[i].enabled,
{
    assert(r.data.switches@[i].text@ == merged_switch_text(
        switches_of(data_of(a.localized())),
        switches_of(data_of(a.base())),
        i,
    ));
}

} // verus!
