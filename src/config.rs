use vstd::prelude::*;

use crate::fallback::Fallback;
use crate::value::RawValue;

verus! {

/// A locale identifier, used as a key of the per-locale tables.
pub type Locale = String;

/// Named script values; the first entry of a name is the one that counts.
pub type VarMap = Vec<(String, RawValue)>;

/// A named block of script lines, and the expression that names the next one.
pub struct Paragraph {
    /// The key of the paragraph, which `next` expressions name.
    pub tag: String,
    /// A human-readable title.
    pub title: Option<String>,
    /// The lines of script text, in order.
    pub texts: Vec<String>,
    /// An expression whose value is the tag of the next paragraph; the story
    /// ends where it is missing.
    pub next: Option<String>,
}

/// The state of a session, as saved and restored.
pub struct RawContext {
    pub cur_para: String,
    pub cur_act: usize,
    pub locals: VarMap,
}

/// Where the plugins are, and which of them to load.
pub struct PluginsConfig {
    pub dir: String,
    pub modules: Vec<String>,
}

/// The game config of a bundle whose paragraphs and resources lie in files
/// of their own.
pub struct GameConfig {
    pub title: String,
    pub author: String,
    /// The directory of the paragraph files.
    pub paras: String,
    /// The tag of the first paragraph.
    pub start: String,
    pub plugins: PluginConfig,
    pub props: Vec<(String, String)>,
    /// The directory of the resource files.
    pub res: Option<String>,
    pub base_lang: Locale,
}

/// Where the plugins are, and which of them to load.
pub struct PluginConfig {
    pub dir: String,
    pub modules: Vec<String>,
}

/// A loaded script bundle. Each table is keyed by locale; where a locale
/// occurs twice, its first entry is the one that counts.
pub struct Game {
    pub title: String,
    pub author: String,
    pub paras: Vec<(Locale, Vec<Paragraph>)>,
    pub plugins: PluginsConfig,
    pub bgs: String,
    pub bgms: String,
    pub videos: String,
    pub res: Vec<(Locale, VarMap)>,
    pub base_lang: Locale,
}

/// A value read from a file on first use and kept from then on: the first
/// value given is the one that stays.
pub struct LoadLock<T> {
    inner: Option<T>,
    path: String,
}

impl<T> LoadLock<T> {
    /// The value, once loaded.
    pub closed spec fn loaded(&self) -> Option<T> {
        self.inner
    }

    pub closed spec fn path_spec(&self) -> Seq<char> {
        self.path@
    }

    /// A lock for the file at `path`, with nothing loaded yet.
    pub fn new(path: String) -> (r: Self)
        ensures
            r.loaded() is None,
            r.path_spec() == path@,
    {
        LoadLock { inner: None, path }
    }

    /// The file that the value comes from.
    pub fn path(&self) -> (r: &String)
        ensures
            r@ == self.path_spec(),
    {
        &self.path
    }

    /// The value, where it has been loaded.
    pub fn get(&self) -> (r: Option<&T>)
        ensures
            deref_opt(r) == self.loaded(),
    {
        self.inner.as_ref()
    }

    /// Keeps `value` where nothing was loaded yet; else leaves the lock as
    /// it is.
    pub fn set(&mut self, value: T)
        ensures
            final(self).path_spec() == old(self).path_spec(),
            final(self).loaded() == if old(self).loaded() is Some {
                old(self).loaded()
            } else {
                Some(value)
            },
    {
        if self.inner.is_none() {
            self.inner = Some(value);
        }
    }
}

/// The value of the first entry with key `k`.
pub open spec fn lookup<V>(m: Seq<(String, V)>, k: Seq<char>) -> Option<V>
    decreases m.len(),
{
    if m.len() == 0 {
        None
    } else if m[0].0@ == k {
        Some(m[0].1)
    } else {
        lookup(m.drop_first(), k)
    }
}

/// The first paragraph with tag `tag`.
pub open spec fn para_with_tag(ps: Seq<Paragraph>, tag: Seq<char>) -> Option<Paragraph>
    decreases ps.len(),
{
    if ps.len() == 0 {
        None
    } else if ps[0].tag@ == tag {
        Some(ps[0])
    } else {
        para_with_tag(ps.drop_first(), tag)
    }
}

/// The key chosen for a matcher's answer: the answer where it is a key of the
/// table, else the base locale.
pub open spec fn chosen_key<V>(
    m: Seq<(String, V)>,
    matched: Option<Seq<char>>,
    base: Seq<char>,
) -> Seq<char> {
    if matched is Some && lookup(m, matched.unwrap()) is Some {
        matched.unwrap()
    } else {
        base
    }
}

pub open spec fn deref_opt<T>(o: Option<&T>) -> Option<T> {
    match o {
        Some(t) => Some(*t),
        None => None,
    }
}

pub open spec fn opt_locale(o: Option<Locale>) -> Option<Seq<char>> {
    match o {
        Some(s) => Some(s@),
        None => None,
    }
}

/// The paragraph with tag `tag` in the table of locale `key`.
pub open spec fn find_para_spec(
    paras: Seq<(Locale, Vec<Paragraph>)>,
    key: Seq<char>,
    tag: Seq<char>,
) -> Option<Paragraph> {
    match lookup(paras, key) {
        Some(ps) => para_with_tag(ps@, tag),
        None => None,
    }
}

/// The two tiers of a table lookup: the localized side is left out where it
/// would repeat the base side.
pub open spec fn two_tier<V>(key: Seq<char>, base_key: Seq<char>, loc: Option<V>, base: Option<V>) -> (
    Option<V>,
    Option<V>,
) {
    (if key == base_key { None } else { loc }, base)
}

pub(crate) fn lookup_index<V>(m: &Vec<(String, V)>, k: &String) -> (r: Option<usize>)
    ensures
        match r {
            Some(i) => i < m@.len() && lookup(m@, k@) == Some(m@[i as int].1),
            None => lookup(m@, k@) is None,
        },
{
    let mut i: usize = 0;
    assert(m@.skip(0) =~= m@);
    while i < m.len()
        invariant
            i <= m@.len(),
            lookup(m@, k@) == lookup(m@.skip(i as int), k@),
        decreases m@.len() - i,
    {
        assert(m@.skip(i as int).drop_first() =~= m@.skip(i as int + 1));
        assert(m@.skip(i as int)[0] == m@[i as int]);
        if m[i].0.eq(k) {
            return Some(i);
        }
        i = i + 1;
    }
    assert(m@.skip(i as int) =~= Seq::<(String, V)>::empty());
    None
}

/// The value of the first entry with key `k`.
pub fn var_get<'a>(m: &'a VarMap, k: &String) -> (r: Option<&'a RawValue>)
    ensures
        deref_opt(r) == lookup(m@, k@),
{
    match lookup_index(m, k) {
        Some(i) => Some(&m[i].1),
        None => None,
    }
}

impl Game {
    /// The locales of the paragraph table, in order.
    pub fn para_locales(&self) -> (r: Vec<Locale>)
        ensures
            r@.len() == self.paras@.len(),
            forall|i: int| 0 <= i < r@.len() ==> #[trigger] r@[i]@ == self.paras@[i].0@,
    {
        let mut r: Vec<Locale> = Vec::new();
        let mut i: usize = 0;
        while i < self.paras.len()
            invariant
                i <= self.paras@.len(),
                r@.len() == i,
                forall|j: int| 0 <= j < i ==> #[trigger] r@[j]@ == self.paras@[j].0@,
            decreases self.paras@.len() - i,
        {
            r.push(self.paras[i].0.clone());
            i = i + 1;
        }
        r
    }

    /// The locales of the resource table, in order.
    pub fn res_locales(&self) -> (r: Vec<Locale>)
        ensures
            r@.len() == self.res@.len(),
            forall|i: int| 0 <= i < r@.len() ==> #[trigger] r@[i]@ == self.res@[i].0@,
    {
        let mut r: Vec<Locale> = Vec::new();
        let mut i: usize = 0;
        while i < self.res.len()
            invariant
                i <= self.res@.len(),
                r@.len() == i,
                forall|j: int| 0 <= j < i ==> #[trigger] r@[j]@ == self.res@[j].0@,
            decreases self.res@.len() - i,
        {
            r.push(self.res[i].0.clone());
            i = i + 1;
        }
        r
    }

    /// The key that a locale matcher's answer stands for in table `m`.
    fn choose_from_keys<V>(&self, matched: Option<Locale>, m: &Vec<(Locale, V)>) -> (r: Locale)
        ensures
            r@ == chosen_key(m@, opt_locale(matched), self.base_lang@),
    {
        match matched {
            Some(k) => {
                if lookup_index(m, &k).is_some() {
                    k
                } else {
                    self.base_lang.clone()
                }
            },
            None => self.base_lang.clone(),
        }
    }

    fn find_para(&self, key: &Locale, tag: &String) -> (r: Option<&Paragraph>)
        ensures
            deref_opt(r) == find_para_spec(self.paras@, key@, tag@),
    {
        match lookup_index(&self.paras, key) {
            Some(i) => {
                let ps = &self.paras[i].1;
                let mut j: usize = 0;
                assert(ps@.skip(0) =~= ps@);
                while j < ps.len()
                    invariant
                        j <= ps@.len(),
                        find_para_spec(self.paras@, key@, tag@) == para_with_tag(ps@, tag@),
                        para_with_tag(ps@, tag@) == para_with_tag(ps@.skip(j as int), tag@),
                    decreases ps@.len() - j,
                {
                    assert(ps@.skip(j as int).drop_first() =~= ps@.skip(j as int + 1));
                    assert(ps@.skip(j as int)[0] == ps@[j as int]);
                    if ps[j].tag.eq(tag) {
                        return Some(&ps[j]);
                    }
                    j = j + 1;
                }
                assert(ps@.skip(j as int) =~= Seq::<Paragraph>::empty());
                None
            },
            None => None,
        }
    }

    /// The paragraph `tag` in two tiers. `matched` and `base_matched` are
    /// what the locale matcher chose among the paragraph table's locales for
    /// the requested locale and for the base locale; an answer that is not a
    /// key of the table stands for the base locale. Where both come to the
    /// same key, only the base side is looked up.
    pub fn find_para_fallback(
        &self,
        matched: Option<Locale>,
        base_matched: Option<Locale>,
        tag: &String,
    ) -> (r: Fallback<&Paragraph>)
        ensures
            ({
                let key = chosen_key(self.paras@, opt_locale(matched), self.base_lang@);
                let base_key = chosen_key(self.paras@, opt_locale(base_matched), self.base_lang@);
                (deref_opt(r.localized()), deref_opt(r.base())) == two_tier(
                    key,
                    base_key,
                    find_para_spec(self.paras@, key, tag@),
                    find_para_spec(self.paras@, base_key, tag@),
                )
            }),
    {
        let key = self.choose_from_keys(matched, &self.paras);
        let base_key = self.choose_from_keys(base_matched, &self.paras);
        let data = if key == base_key {
            None
        } else {
            self.find_para(&key, tag)
        };
        Fallback::new(data, self.find_para(&base_key, tag))
    }

    fn find_res(&self, key: &Locale) -> (r: Option<&VarMap>)
        ensures
            deref_opt(r) == lookup(self.res@, key@),
    {
        match lookup_index(&self.res, key) {
            Some(i) => Some(&self.res[i].1),
            None => None,
        }
    }

    /// The resources in two tiers, with the locale matcher's answers as in
    /// `find_para_fallback`.
    pub fn find_res_fallback(&self, matched: Option<Locale>, base_matched: Option<Locale>) -> (r:
        Fallback<&VarMap>)
        ensures
            ({
                let key = chosen_key(self.res@, opt_locale(matched), self.base_lang@);
                let base_key = chosen_key(self.res@, opt_locale(base_matched), self.base_lang@);
                (deref_opt(r.localized()), deref_opt(r.base())) == two_tier(
                    key,
                    base_key,
                    lookup(self.res@, key),
                    lookup(self.res@, base_key),
                )
            }),
    {
        let key = self.choose_from_keys(matched, &self.res);
        let base_key = self.choose_from_keys(base_matched, &self.res);
        let data = if key == base_key {
            None
        } else {
            self.find_res(&key)
        };
        Fallback::new(data, self.find_res(&base_key))
    }
}

/// A requested locale that the matcher cannot place among the paragraph
/// table's keys resolves to the base locale: when the base locale resolves to
/// itself, the localized side is missing and the base side is the base
/// locale's paragraph.
pub proof fn lemma_unmatched_para_locale(
    paras: Seq<(Locale, Vec<Paragraph>)>,
    base_lang: Seq<char>,
    matched: Option<Seq<char>>,
    base_matched: Option<Seq<char>>,
    tag: Seq<char>,
)
    requires
        matched is None || lookup(paras, matched.unwrap()) is None,
        chosen_key(paras, base_matched, base_lang) == base_lang,
    ensures
        ({
            let key = chosen_key(paras, matched, base_lang);
            let base_key = chosen_key(paras, base_matched, base_lang);
            two_tier(key, base_key, find_para_spec(paras, key, tag), find_para_spec(paras, base_key, tag))
                == (None::<Paragraph>, find_para_spec(paras, base_lang, tag))
        }),
{
}

/// The same for the resource table.
pub proof fn lemma_unmatched_res_locale(
    res: Seq<(Locale, VarMap)>,
    base_lang: Seq<char>,
    matched: Option<Seq<char>>,
    base_matched: Option<Seq<char>>,
)
    requires
        matched is None || lookup(res, matched.unwrap()) is None,
        chosen_key(res, base_matched, base_lang) == base_lang,
    ensures
        ({
            let key = chosen_key(res, matched, base_lang);
            let base_key = chosen_key(res, base_matched, base_lang);
            two_tier(key, base_key, lookup(res, key), lookup(res, base_key)) == (
                None::<VarMap>,
                lookup(res, base_lang),
            )
        }),
{
}

/// Where the requested locale comes to the same key as the base locale, only
/// the base side is looked up.
pub proof fn lemma_same_key_no_localized<V>(key: Seq<char>, base_key: Seq<char>, loc: Option<V>, base: Option<V>)
    requires
        key == base_key,
    ensures
        two_tier(key, base_key, loc, base) == (None::<V>, base),
{
}

} // verus!
