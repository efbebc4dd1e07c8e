//! The query serializer shared by every query kind.
//!
//! A query is turned into an ordered list of `(key, value)` pairs. A field that
//! holds no value yields no pair at all; a field that holds a list yields exactly
//! one pair whose value is the comma-joined list.
use vstd::prelude::*;

use crate::error::ApiError;

verus! {

/// A value that can stand as (part of) a query-string value.
pub trait WireValue {
    /// The text this value is sent as.
    spec fn wire_text(&self) -> Seq<char>;

    fn to_wire(&self) -> (r: String)
        ensures
            r@ == self.wire_text(),
    ;
}

/// The text of a single decimal digit `d < 10`.
pub open spec fn digit_text(d: nat) -> Seq<char> {
    if d == 0 {
        "0"@
    } else if d == 1 {
        "1"@
    } else if d == 2 {
        "2"@
    } else if d == 3 {
        "3"@
    } else if d == 4 {
        "4"@
    } else if d == 5 {
        "5"@
    } else if d == 6 {
        "6"@
    } else if d == 7 {
        "7"@
    } else if d == 8 {
        "8"@
    } else {
        "9"@
    }
}

/// The decimal text of `n`, most significant digit first, with no leading zero.
pub open spec fn decimal_text(n: nat) -> Seq<char>
    decreases n,
{
    if n < 10 {
        digit_text(n)
    } else {
        decimal_text(n / 10) + digit_text(n % 10)
    }
}

/// The text of a boolean.
pub open spec fn bool_text(b: bool) -> Seq<char> {
    if b {
        "true"@
    } else {
        "false"@
    }
}

/// The texts joined with one `,` between neighbours.
pub open spec fn comma_join(items: Seq<Seq<char>>) -> Seq<char>
    decreases items.len(),
{
    if items.len() == 0 {
        Seq::empty()
    } else if items.len() == 1 {
        items[0]
    } else {
        comma_join(items.drop_last()) + ","@ + items.last()
    }
}

/// The wire text of each value, in order.
pub open spec fn wire_texts<T: WireValue>(vals: Seq<T>) -> Seq<Seq<char>> {
    vals.map_values(|v: T| v.wire_text())
}

/// The pairs contributed by a single-valued field.
#[verifier::opaque]
pub open spec fn value_param<T: WireValue>(key: Seq<char>, val: Option<T>) -> Seq<(Seq<char>, Seq<char>)> {
    match val {
        Some(v) => seq![(key, v.wire_text())],
        None => Seq::empty(),
    }
}

/// The pairs contributed by a list-valued field.
#[verifier::opaque]
pub open spec fn list_param<T: WireValue>(key: Seq<char>, vals: Option<Seq<T>>) -> Seq<(Seq<char>, Seq<char>)> {
    match vals {
        Some(vs) => seq![(key, comma_join(wire_texts(vs)))],
        None => Seq::empty(),
    }
}

/// An optional slice, seen as an optional sequence.
pub open spec fn opt_seq<T>(vals: Option<&[T]>) -> Option<Seq<T>> {
    match vals {
        Some(s) => Some(s@),
        None => None,
    }
}

/// The pairs as text.
pub open spec fn pairs_view(pairs: Seq<(String, String)>) -> Seq<(Seq<char>, Seq<char>)> {
    pairs.map_values(|p: (String, String)| (p.0@, p.1@))
}

/// An unset field contributes nothing, a set list field exactly one pair.
pub proof fn lemma_list_param_shape<T: WireValue>(key: Seq<char>, vals: Option<Seq<T>>)
    ensures
        vals is None ==> list_param(key, vals).len() == 0,
        vals is Some ==> list_param(key, vals).len() == 1 && list_param(key, vals)[0] == (
        key,
        comma_join(wire_texts(vals->Some_0)),
        ),
{
    reveal(value_param);
    reveal(list_param);
}

/// One if the field is set, zero otherwise.
#[verifier::opaque]
pub open spec fn set_count<T>(val: Option<T>) -> nat {
    if val is Some {
        1
    } else {
        0
    }
}

/// A single-valued field contributes one pair when set, none otherwise.
pub proof fn lemma_value_param_len<T: WireValue>(key: Seq<char>, val: Option<T>)
    ensures
        value_param(key, val).len() == set_count(val),
{
    reveal(set_count);
    reveal(value_param);
    reveal(list_param);
}

/// A list field contributes one pair when set, none otherwise.
pub proof fn lemma_list_param_len<T: WireValue>(key: Seq<char>, vals: Option<Seq<T>>)
    ensures
        list_param(key, vals).len() == set_count(vals),
{
    reveal(set_count);
    reveal(value_param);
    reveal(list_param);
}

/// Three list values are sent as one pair whose value is `a,b,c`.
pub proof fn lemma_three_values_joined(a: Seq<char>, b: Seq<char>, c: Seq<char>)
    ensures
        comma_join(seq![a, b, c]) == a + ","@ + b + ","@ + c,
{
    assert(seq![a, b, c].drop_last() =~= seq![a, b]);
    assert(seq![a, b].drop_last() =~= seq![a]);
    assert(comma_join(seq![a]) == a);
    assert(comma_join(seq![a, b]) == a + ","@ + b);
    assert(comma_join(seq![a, b, c]) == (a + ","@ + b) + ","@ + c);
}

/// The wire texts of a list field's values, if it is set.
pub open spec fn list_texts<T: WireValue>(vals: Option<Seq<T>>) -> Option<Seq<Seq<char>>> {
    match vals {
        Some(vs) => Some(wire_texts(vs)),
        None => None,
    }
}

fn digit_str(d: u32) -> (r: &'static str)
    requires
        d < 10,
    ensures
        r@ == digit_text(d as nat),
{
    if d == 0 {
        "0"
    } else if d == 1 {
        "1"
    } else if d == 2 {
        "2"
    } else if d == 3 {
        "3"
    } else if d == 4 {
        "4"
    } else if d == 5 {
        "5"
    } else if d == 6 {
        "6"
    } else if d == 7 {
        "7"
    } else if d == 8 {
        "8"
    } else {
        "9"
    }
}

fn append_decimal(out: &mut String, n: u32)
    ensures
        final(out)@ == old(out)@ + decimal_text(n as nat),
    decreases n,
{
    if n >= 10 {
        append_decimal(out, n / 10);
    }
    out.append(digit_str(n % 10));
    proof {
        assert(final(out)@ =~= old(out)@ + decimal_text(n as nat));
    }
}

impl WireValue for u32 {
    open spec fn wire_text(&self) -> Seq<char> {
        decimal_text(*self as nat)
    }

    fn to_wire(&self) -> (r: String) {
        let mut s = String::new();
        append_decimal(&mut s, *self);
        proof {
            assert(s@ =~= decimal_text(*self as nat));
        }
        s
    }
}

impl WireValue for bool {
    open spec fn wire_text(&self) -> Seq<char> {
        bool_text(*self)
    }

    fn to_wire(&self) -> (r: String) {
        if *self {
            "true".to_owned()
        } else {
            "false".to_owned()
        }
    }
}

impl<'a> WireValue for &'a str {
    open spec fn wire_text(&self) -> Seq<char> {
        (*self)@
    }

    fn to_wire(&self) -> (r: String) {
        (*self).to_owned()
    }
}

/// The values' wire texts joined by commas.
pub fn join_values<T: WireValue>(vals: &[T]) -> (r: String)
    ensures
        r@ == comma_join(wire_texts(vals@)),
{
    let mut out = String::new();
    let n = vals.len();
    let mut i: usize = 0;
    while i < n
        invariant
            n == vals@.len(),
            i <= n,
            out@ == comma_join(wire_texts(vals@.subrange(0, i as int))),
        decreases n - i,
    {
        let w = vals[i].to_wire();
        let ghost prev = vals@.subrange(0, i as int);
        let ghost next = vals@.subrange(0, i + 1);
        proof {
            assert(next.drop_last() =~= prev);
            assert(wire_texts(next).drop_last() =~= wire_texts(prev));
            assert(wire_texts(next).last() == vals@[i as int].wire_text());
        }
        if i > 0 {
            out.append(",");
        }
        out.append(w.as_str());
        proof {
            if i == 0 {
                assert(wire_texts(next) =~= seq![vals@[0].wire_text()]);
            }
            assert(out@ =~= comma_join(wire_texts(next)));
        }
        i = i + 1;
    }
    proof {
        assert(vals@.subrange(0, n as int) =~= vals@);
    }
    out
}

/// Appending a pair appends its text.
pub proof fn lemma_pairs_view_push(pairs: Seq<(String, String)>, p: (String, String))
    ensures
        pairs_view(pairs.push(p)) == pairs_view(pairs) + seq![(p.0@, p.1@)],
{
    assert(pairs_view(pairs.push(p)) =~= pairs_view(pairs) + seq![(p.0@, p.1@)]);
}

/// Appends the pair of a single-valued field, if it is set.
pub fn push_value<T: WireValue>(parts: &mut Vec<(String, String)>, key: &str, val: Option<T>)
    ensures
        pairs_view(final(parts)@) == pairs_view(old(parts)@) + value_param(key@, val),
{
    reveal(value_param);
    reveal(list_param);
    match val {
        Some(v) => {
            let w = v.to_wire();
            let k = key.to_owned();
            let ghost p = (k, w);
            proof {
                lemma_pairs_view_push(parts@, p);
            }
            parts.push((k, w));
            proof {
                assert(pairs_view(parts@) =~= pairs_view(old(parts)@) + value_param(key@, val));
            }
        },
        None => {
            proof {
                assert(pairs_view(parts@) =~= pairs_view(old(parts)@) + Seq::empty());
            }
        },
    }
}

/// Appends the pair of a list-valued field, if it is set: one pair, whose value
/// is the comma-joined list.
pub fn push_list<T: WireValue>(parts: &mut Vec<(String, String)>, key: &str, vals: Option<&[T]>)
    ensures
        pairs_view(final(parts)@) == pairs_view(old(parts)@) + list_param(key@, opt_seq(vals)),
{
    reveal(value_param);
    reveal(list_param);
    match vals {
        Some(vs) => {
            let w = join_values(vs);
            let k = key.to_owned();
            let ghost p = (k, w);
            proof {
                lemma_pairs_view_push(parts@, p);
            }
            parts.push((k, w));
            proof {
                assert(pairs_view(parts@) =~= pairs_view(old(parts)@) + list_param(key@, opt_seq(vals)));
            }
        },
        None => {
            proof {
                assert(pairs_view(parts@) =~= pairs_view(old(parts)@) + Seq::empty());
            }
        },
    }
}

/// The `application/x-www-form-urlencoded` text of a list of pairs.
pub uninterp spec fn form_encoding(pairs: Seq<(Seq<char>, Seq<char>)>) -> Seq<char>;

/// Relies on `comma_serde_urlencoded::to_string`: on a sequence of string pairs
/// it yields their form-urlencoded text, each pair in order. It does not fail on
/// such input: every element is a two-element tuple, and a string key or value
/// is always accepted.
#[verifier::external_body]
fn form_encode(pairs: &Vec<(String, String)>) -> (r: Result<String, comma_serde_urlencoded::ser::Error>)
    ensures
        r is Ok,
        r is Ok ==> r->Ok_0@ == form_encoding(pairs_view(pairs@)),
{
    comma_serde_urlencoded::to_string(pairs)
}

/// The pairs as a form body.
pub fn encode_form(pairs: &Vec<(String, String)>) -> (r: Result<String, ApiError>)
    ensures
        r is Ok,
        r->Ok_0@ == form_encoding(pairs_view(pairs@)),
{
    match form_encode(pairs) {
        Ok(body) => Ok(body),
        Err(e) => Err(ApiError::UrlencodedSerializeError(e)),
    }
}

} // verus!
