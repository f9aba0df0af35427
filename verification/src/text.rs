//! Copies and comparisons of the strings that the data model holds.

use crate::model::{opt_view, views};
use vstd::prelude::*;
use vstd::string::StrSliceExecFns;

verus! {

/// A copy of an optional string.
pub fn clone_opt_text(o: &Option<String>) -> (r: Option<String>)
    ensures
        opt_view(r) == opt_view(*o),
{
    match o {
        Some(s) => Some(s.clone()),
        None => None,
    }
}

/// Whether two optional strings hold the same text, or are both absent.
pub fn opt_text_eq(a: &Option<String>, b: &Option<String>) -> (r: bool)
    ensures
        r == (opt_view(*a) == opt_view(*b)),
{
    match (a, b) {
        (Some(x), Some(y)) => *x == *y,
        (None, None) => true,
        _ => false,
    }
}

/// A copy of a list of strings.
pub fn clone_texts(v: &Vec<String>) -> (r: Vec<String>)
    ensures
        views(r@) == views(v@),
{
    let mut r: Vec<String> = Vec::new();
    let mut i: usize = 0;
    while i < v.len()
        invariant
            i <= v.len(),
            r@.len() == i,
            forall|k: int| 0 <= k < i ==> r@[k]@ == v@[k]@,
        decreases v.len() - i,
    {
        r.push(v[i].clone());
        i += 1;
    }
    assert(views(r@) =~= views(v@));
    r
}

/// A copy of an optional list of strings.
pub fn clone_opt_texts(o: &Option<Vec<String>>) -> (r: Option<Vec<String>>)
    ensures
        crate::model::opt_views(r) == crate::model::opt_views(*o),
{
    match o {
        Some(v) => Some(clone_texts(v)),
        None => None,
    }
}

/// Whether `name` is one of the strings of `list`.
pub fn text_in(list: &[String], name: &String) -> (r: bool)
    ensures
        r == views(list@).contains(name@),
{
    let mut i: usize = 0;
    while i < list.len()
        invariant
            i <= list.len(),
            forall|k: int| 0 <= k < i ==> list@[k]@ != name@,
        decreases list.len() - i,
    {
        if list[i] == *name {
            assert(views(list@)[i as int] == name@);
            return true;
        }
        i += 1;
    }
    false
}

/// Whether a pattern leaves the text open or states the same text as `value`.
pub fn opt_text_admits(pattern: &Option<String>, value: &Option<String>) -> (r: bool)
    ensures
        r == (pattern is None || opt_view(*pattern) == opt_view(*value)),
{
    match pattern {
        Some(p) => match value {
            Some(v) => *p == *v,
            None => false,
        },
        None => true,
    }
}

/// A decimal digit.
pub open spec fn is_digit(c: char) -> bool {
    48 <= c as u32 <= 57
}

/// The value of a decimal digit.
pub open spec fn digit_value(c: char) -> nat {
    (c as u32 - 48) as nat
}

/// The text is a decimal number: digits and nothing else, one at least.
pub open spec fn is_decimal(s: Seq<char>) -> bool {
    s.len() > 0 && forall|i: int| 0 <= i < s.len() ==> is_digit(#[trigger] s[i])
}

/// The number that decimal digits stand for.
pub open spec fn decimal_value(s: Seq<char>) -> nat
    decreases s.len(),
{
    if s.len() == 0 {
        0
    } else {
        decimal_value(s.drop_last()) * 10 + digit_value(s.last())
    }
}

/// The number of a decimal text that fits 16 bits, else nothing.
pub open spec fn decimal_u16(s: Seq<char>) -> Option<u16> {
    if is_decimal(s) && decimal_value(s) <= u16::MAX {
        Some(decimal_value(s) as u16)
    } else {
        None
    }
}

/// A number in digits is at least the number that its first digits give.
pub proof fn lemma_decimal_value_grows(s: Seq<char>, n: int)
    requires
        0 <= n <= s.len(),
    ensures
        decimal_value(s.take(n)) <= decimal_value(s),
    decreases s.len() - n,
{
    if n == s.len() {
        assert(s.take(n) =~= s);
    } else {
        lemma_decimal_value_grows(s, n + 1);
        assert(s.take(n + 1).drop_last() =~= s.take(n));
    }
}

/// Reads a decimal number of at most 16 bits.
pub fn parse_u16(text: &str) -> (r: Option<u16>)
    ensures
        r == decimal_u16(text@),
{
    let n = text.unicode_len();
    if n == 0 {
        return None;
    }
    let mut value: u32 = 0;
    let mut i: usize = 0;
    while i < n
        invariant
            i <= n,
            n == text@.len(),
            value == decimal_value(text@.take(i as int)),
            value <= u16::MAX,
            forall|k: int| 0 <= k < i ==> is_digit(#[trigger] text@[k]),
        decreases n - i,
    {
        let c = text.get_char(i);
        let u: u32 = c as u32;
        if u < 48 || u > 57 {
            assert(!is_digit(text@[i as int]));
            return None;
        }
        proof {
            assert(text@.take(i as int + 1).drop_last() =~= text@.take(i as int));
            assert(text@.take(i as int + 1).last() == c);
        }
        value = value * 10 + (u - 48);
        if value > 65535 {
            proof {
                lemma_decimal_value_grows(text@, i as int + 1);
            }
            return None;
        }
        i += 1;
    }
    proof {
        assert(text@.take(n as int) =~= text@);
    }
    Some(value as u16)
}

/// Where one text stands with respect to another.
#[derive(Clone, Copy, Debug, PartialEq, Eq, Structural)]
pub enum TextOrder {
    Before,
    Same,
    After,
}

/// The text `a` comes before the text `b`: at the first place where they
/// differ, `a` has the smaller code point, or `a` ends there and `b` goes on.
pub open spec fn text_lt(a: Seq<char>, b: Seq<char>) -> bool
    decreases a.len(),
{
    if b.len() == 0 {
        false
    } else if a.len() == 0 {
        true
    } else if (a[0] as u32) < (b[0] as u32) {
        true
    } else if (a[0] as u32) > (b[0] as u32) {
        false
    } else {
        text_lt(a.skip(1), b.skip(1))
    }
}

/// No text comes before itself.
pub proof fn lemma_text_lt_irreflexive(a: Seq<char>)
    ensures
        !text_lt(a, a),
    decreases a.len(),
{
    if a.len() > 0 {
        lemma_text_lt_irreflexive(a.skip(1));
    }
}

/// What comes before a text comes before what the text comes before.
pub proof fn lemma_text_lt_transitive(a: Seq<char>, b: Seq<char>, c: Seq<char>)
    requires
        text_lt(a, b),
        text_lt(b, c),
    ensures
        text_lt(a, c),
    decreases a.len(),
{
    if a.len() > 0 && !((a[0] as u32) < (c[0] as u32)) {
        lemma_text_lt_transitive(a.skip(1), b.skip(1), c.skip(1));
    }
}

/// Where the text `a` stands with respect to the text `b`.
pub fn text_order(a: &str, b: &str) -> (r: TextOrder)
    ensures
        match r {
            TextOrder::Before => text_lt(a@, b@),
            TextOrder::Same => a@ == b@,
            TextOrder::After => text_lt(b@, a@),
        },
{
    let n = a.unicode_len();
    let m = b.unicode_len();
    let mut i: usize = 0;
    assert(a@.skip(0) =~= a@ && b@.skip(0) =~= b@);
    while i < n && i < m
        invariant
            i <= n,
            i <= m,
            n == a@.len(),
            m == b@.len(),
            forall|k: int| 0 <= k < i ==> a@[k] == b@[k],
            text_lt(a@, b@) == text_lt(a@.skip(i as int), b@.skip(i as int)),
            text_lt(b@, a@) == text_lt(b@.skip(i as int), a@.skip(i as int)),
        decreases n - i,
    {
        let x: u32 = a.get_char(i) as u32;
        let y: u32 = b.get_char(i) as u32;
        proof {
            assert(a@.skip(i as int)[0] == a@[i as int]);
            assert(b@.skip(i as int)[0] == b@[i as int]);
            assert(a@.skip(i as int).skip(1) =~= a@.skip(i as int + 1));
            assert(b@.skip(i as int).skip(1) =~= b@.skip(i as int + 1));
        }
        if x < y {
            return TextOrder::Before;
        }
        if x > y {
            return TextOrder::After;
        }
        assert(a@[i as int] == b@[i as int]);
        i += 1;
    }
    if n == m {
        assert(a@ =~= b@);
        TextOrder::Same
    } else if n < m {
        assert(a@.skip(i as int).len() == 0);
        TextOrder::Before
    } else {
        assert(b@.skip(i as int).len() == 0);
        TextOrder::After
    }
}

} // verus!
