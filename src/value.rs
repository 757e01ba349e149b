use vstd::prelude::*;
use vstd::string::StringExecFns;

verus! {

/// A dynamically typed script value.
pub enum RawValue {
    Unit,
    Bool(bool),
    Num(i64),
    Str(String),
}

/// The decimal digit `d`.
pub open spec fn digit_char(d: int) -> char {
    if d == 0 {
        '0'
    } else if d == 1 {
        '1'
    } else if d == 2 {
        '2'
    } else if d == 3 {
        '3'
    } else if d == 4 {
        '4'
    } else if d == 5 {
        '5'
    } else if d == 6 {
        '6'
    } else if d == 7 {
        '7'
    } else if d == 8 {
        '8'
    } else {
        '9'
    }
}

/// The decimal digits of `n`, most significant first, with no leading zero.
pub open spec fn decimal(n: nat) -> Seq<char>
    decreases n,
{
    if n < 10 {
        seq![digit_char(n as int)]
    } else {
        decimal(n / 10).push(digit_char((n % 10) as int))
    }
}

/// The decimal text of a signed number.
pub open spec fn signed_decimal(n: int) -> Seq<char> {
    if n < 0 {
        seq!['-'] + decimal((-n) as nat)
    } else {
        decimal(n as nat)
    }
}

/// What a value reads as where text is wanted.
pub open spec fn str_of(v: RawValue) -> Seq<char> {
    match v {
        RawValue::Unit => Seq::empty(),
        RawValue::Bool(b) => if b {
            "true"@
        } else {
            "false"@
        },
        RawValue::Num(n) => signed_decimal(n as int),
        RawValue::Str(s) => s@,
    }
}

/// What a value reads as where a condition is wanted.
pub open spec fn bool_of(v: RawValue) -> bool {
    match v {
        RawValue::Unit => false,
        RawValue::Bool(b) => b,
        RawValue::Num(n) => n != 0,
        RawValue::Str(s) => s@.len() > 0,
    }
}

/// Relies on `String::push`: the character is appended at the end.
#[verifier::external_body]
pub(crate) fn push_char(s: &mut String, c: char)
    ensures
        final(s)@ == old(s)@.push(c),
{
    s.push(c)
}

fn digit(d: u64) -> (c: char)
    requires
        d < 10,
    ensures
        c == digit_char(d as int),
{
    if d == 0 {
        '0'
    } else if d == 1 {
        '1'
    } else if d == 2 {
        '2'
    } else if d == 3 {
        '3'
    } else if d == 4 {
        '4'
    } else if d == 5 {
        '5'
    } else if d == 6 {
        '6'
    } else if d == 7 {
        '7'
    } else if d == 8 {
        '8'
    } else {
        '9'
    }
}

/// Appends the decimal digits of `n`.
pub fn push_decimal(out: &mut String, n: u64)
    ensures
        final(out)@ == old(out)@ + decimal(n as nat),
    decreases n,
{
    if n >= 10 {
        push_decimal(out, n / 10);
    }
    push_char(out, digit(n % 10));
    proof {
        if n >= 10 {
            assert(decimal(n as nat) == decimal((n / 10) as nat).push(digit_char((n % 10) as int)));
        }
    }
    assert(final(out)@ =~= old(out)@ + decimal(n as nat));
}

impl RawValue {
    /// The value as a condition: the unit is false, a number is true when it
    /// is not zero, a string when it is not empty.
    pub fn get_bool(&self) -> (r: bool)
        ensures
            r == bool_of(*self),
    {
        match self {
            RawValue::Unit => false,
            RawValue::Bool(b) => *b,
            RawValue::Num(n) => *n != 0,
            RawValue::Str(s) => !s.as_str().is_empty(),
        }
    }

    /// The value as text: the unit is empty, a number is written in decimal.
    pub fn get_str(&self) -> (r: String)
        ensures
            r@ == str_of(*self),
    {
        match self {
            RawValue::Unit => String::new(),
            RawValue::Bool(b) => if *b {
                String::from_str("true")
            } else {
                String::from_str("false")
            },
            RawValue::Num(n) => {
                let mut out = String::new();
                if *n < 0 {
                    push_char(&mut out, '-');
                    let m: u64 = if *n == i64::MIN {
                        9223372036854775808u64
                    } else {
                        (-*n) as u64
                    };
                    push_decimal(&mut out, m);
                    assert(out@ =~= seq!['-'] + decimal((-(*n as int)) as nat));
                } else {
                    push_decimal(&mut out, *n as u64);
                    assert(out@ =~= decimal(*n as nat));
                }
                out
            },
            RawValue::Str(s) => s.clone(),
        }
    }
}

} // verus!
