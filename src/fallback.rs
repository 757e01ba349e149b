use vstd::prelude::*;

verus! {

/// The first of two strings that is present and not empty.
pub open spec fn first_filled(a: Option<Seq<char>>, b: Option<Seq<char>>) -> Option<Seq<char>> {
    if a is Some && a.unwrap().len() > 0 {
        a
    } else if b is Some && b.unwrap().len() > 0 {
        b
    } else {
        None
    }
}

/// The first of two lists that is present and not empty.
pub open spec fn first_filled_seq<T>(a: Option<Seq<T>>, b: Option<Seq<T>>) -> Option<Seq<T>> {
    if a is Some && a.unwrap().len() > 0 {
        a
    } else if b is Some && b.unwrap().len() > 0 {
        b
    } else {
        None
    }
}

pub open spec fn opt_str(o: Option<String>) -> Option<Seq<char>> {
    match o {
        Some(s) => Some(s@),
        None => None,
    }
}

pub open spec fn opt_vec<T>(o: Option<Vec<T>>) -> Option<Seq<T>> {
    match o {
        Some(v) => Some(v@),
        None => None,
    }
}

/// The element at `i` of an optional list, if both are there.
pub open spec fn opt_at<T>(s: Seq<T>, i: int) -> Option<T> {
    if 0 <= i < s.len() {
        Some(s[i])
    } else {
        None
    }
}

pub open spec fn flatten_spec<T>(o: Option<Option<T>>) -> Option<T> {
    match o {
        Some(inner) => inner,
        None => None,
    }
}

pub open spec fn max_len(a: int, b: int) -> int {
    if a >= b {
        a
    } else {
        b
    }
}

/// A value resolved in two tiers: the one of the requested locale, and the
/// one of the base locale. Either side may be missing.
pub struct Fallback<T> {
    data: Option<T>,
    base_data: Option<T>,
}

impl<T> Fallback<T> {
    /// The side of the requested locale.
    pub closed spec fn localized(&self) -> Option<T> {
        self.data
    }

    /// The side of the base locale.
    pub closed spec fn base(&self) -> Option<T> {
        self.base_data
    }

    pub fn new(data: Option<T>, base_data: Option<T>) -> (r: Self)
        ensures
            r.localized() == data,
            r.base() == base_data,
    {
        Fallback { data, base_data }
    }

    pub fn is_some(&self) -> (r: bool)
        ensures
            r == (self.localized() is Some || self.base() is Some),
    {
        self.data.is_some() || self.base_data.is_some()
    }

    pub fn as_ref(&self) -> (r: Fallback<&T>)
        ensures
            r.localized() is Some == self.localized() is Some,
            r.localized() is Some ==> *r.localized().unwrap() == self.localized().unwrap(),
            r.base() is Some == self.base() is Some,
            r.base() is Some ==> *r.base().unwrap() == self.base().unwrap(),
    {
        Fallback::new(self.data.as_ref(), self.base_data.as_ref())
    }

    /// Tries `f` on the localized side first; when that gives nothing, on the
    /// base side.
    pub fn and_then<V, F: Fn(T) -> Option<V>>(self, f: F) -> (r: Option<V>)
        requires
            forall|t: T| #[trigger] f.requires((t,)),
        ensures
            ({
                let loc_hit = self.localized() is Some && r is Some && f.ensures(
                    (self.localized().unwrap(),),
                    r,
                );
                let loc_miss = self.localized() is None || f.ensures(
                    (self.localized().unwrap(),),
                    None,
                );
                let from_base = if self.base() is Some {
                    f.ensures((self.base().unwrap(),), r)
                } else {
                    r is None
                };
                loc_hit || (loc_miss && from_base)
            }),
    {
        let first = match self.data {
            Some(t) => f(t),
            None => None,
        };
        match first {
            Some(v) => Some(v),
            None => match self.base_data {
                Some(t) => f(t),
                None => None,
            },
        }
    }

    /// Applies `f` to each side that is present; the pairing is kept.
    pub fn map<V, F: Fn(T) -> V>(self, f: F) -> (r: Fallback<V>)
        requires
            forall|t: T| #[trigger] f.requires((t,)),
        ensures
            r.localized() is Some == self.localized() is Some,
            r.localized() is Some ==> f.ensures(
                (self.localized().unwrap(),),
                r.localized().unwrap(),
            ),
            r.base() is Some == self.base() is Some,
            r.base() is Some ==> f.ensures((self.base().unwrap(),), r.base().unwrap()),
    {
        let data = match self.data {
            Some(t) => Some(f(t)),
            None => None,
        };
        let base_data = match self.base_data {
            Some(t) => Some(f(t)),
            None => None,
        };
        Fallback::new(data, base_data)
    }

    pub fn unzip(self) -> (r: (Option<T>, Option<T>))
        ensures
            r.0 == self.localized(),
            r.1 == self.base(),
    {
        (self.data, self.base_data)
    }
}

impl<T> Fallback<Option<T>> {
    /// Drops the inner `Option` of each side.
    pub fn flatten(self) -> (r: Fallback<T>)
        ensures
            r.localized() == flatten_spec(self.localized()),
            r.base() == flatten_spec(self.base()),
    {
        let data = match self.data {
            Some(inner) => inner,
            None => None,
        };
        let base_data = match self.base_data {
            Some(inner) => inner,
            None => None,
        };
        Fallback::new(data, base_data)
    }
}

impl Fallback<String> {
    /// The localized string unless it is missing or empty, else the base one
    /// unless it is missing or empty.
    pub fn and_any(self) -> (r: Option<String>)
        ensures
            opt_str(r) == first_filled(opt_str(self.localized()), opt_str(self.base())),
    {
        match self.data {
            Some(s) if !s.as_str().is_empty() => Some(s),
            _ => match self.base_data {
                Some(s) if !s.as_str().is_empty() => Some(s),
                _ => None,
            },
        }
    }
}

impl<T> Fallback<Vec<T>> {
    /// The localized list unless it is missing or empty, else the base one
    /// unless it is missing or empty.
    pub fn and_any(self) -> (r: Option<Vec<T>>)
        ensures
            opt_vec(r) == first_filled_seq(opt_vec(self.localized()), opt_vec(self.base())),
    {
        match self.data {
            Some(v) if v.len() > 0 => Some(v),
            _ => match self.base_data {
                Some(v) if v.len() > 0 => Some(v),
                _ => None,
            },
        }
    }

    /// Pairs the two lists by position; the shorter one is padded with
    /// missing sides.
    pub fn into_iter(self) -> (r: FallbackVecIter<T>)
        ensures
            r.rest_localized() == seq_or_empty(opt_vec(self.localized())),
            r.rest_base() == seq_or_empty(opt_vec(self.base())),
    {
        let data = match self.data {
            Some(v) => v,
            None => Vec::new(),
        };
        let base_data = match self.base_data {
            Some(v) => v,
            None => Vec::new(),
        };
        FallbackVecIter { data, base_data }
    }
}

pub open spec fn seq_or_empty<T>(o: Option<Seq<T>>) -> Seq<T> {
    match o {
        Some(s) => s,
        None => Seq::empty(),
    }
}

/// Walks two lists side by side, yielding one `Fallback` per position.
pub struct FallbackVecIter<T> {
    data: Vec<T>,
    base_data: Vec<T>,
}

impl<T> FallbackVecIter<T> {
    pub closed spec fn rest_localized(&self) -> Seq<T> {
        self.data@
    }

    pub closed spec fn rest_base(&self) -> Seq<T> {
        self.base_data@
    }

    /// How many pairs are left.
    pub open spec fn remaining(&self) -> int {
        max_len(self.rest_localized().len() as int, self.rest_base().len() as int)
    }

    pub fn next(&mut self) -> (r: Option<Fallback<T>>)
        ensures
            old(self).remaining() == 0 ==> r is None && *final(self) == *old(self),
            old(self).remaining() > 0 ==> {
                &&& r is Some
                &&& r.unwrap().localized() == opt_at(old(self).rest_localized(), 0)
                &&& r.unwrap().base() == opt_at(old(self).rest_base(), 0)
                &&& final(self).rest_localized() == if old(self).rest_localized().len() > 0 {
                    old(self).rest_localized().drop_first()
                } else {
                    old(self).rest_localized()
                }
                &&& final(self).rest_base() == if old(self).rest_base().len() > 0 {
                    old(self).rest_base().drop_first()
                } else {
                    old(self).rest_base()
                }
                &&& final(self).remaining() == old(self).remaining() - 1
            },
    {
        let d = if self.data.len() > 0 {
            Some(self.data.remove(0))
        } else {
            None
        };
        let b = if self.base_data.len() > 0 {
            Some(self.base_data.remove(0))
        } else {
            None
        };
        if d.is_some() || b.is_some() {
            Some(Fallback::new(d, b))
        } else {
            None
        }
    }
}

} // verus!
