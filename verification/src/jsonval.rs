//! Trusted bridge to `serde_json` for the opaque extension payloads, and the
//! one conversion from characters back to an owned string. Everything here is
//! believed, not proved: each item's doc comment names the outside function it
//! relies on.

use vstd::prelude::*;
use serde_json::Value;
use crate::jsontext::{jstr, jopt, p_opt, jstr_f, pf_jstr, lemma_p_opt_none, lemma_p_opt_some,
    lemma_p_jstr, expect_lit, parse_jstr, eq_chars};

verus! {

#[verifier::external_type_specification]
#[verifier::external_body]
pub struct ExValue(Value);

/// The canonical text of a JSON value: what `serde_json::to_string` returns
/// for it. A function of the value alone.
pub uninterp spec fn value_text(v: Value) -> Seq<char>;

/// Does `serde_json::from_str` accept this text and return a value whose
/// canonical text is the text itself? A function of the text alone, since the
/// parser is deterministic. Not every canonical text reparses: the
/// deserializer enforces a recursion limit that the serializer does not, so a
/// deeply nested value serializes to a text this predicate refuses.
pub uninterp spec fn reparses(t: Seq<char>) -> bool;

/// Relies on `String: FromIterator<char>`: collecting characters concatenates
/// them into a string with exactly those characters.
#[verifier::external_body]
pub fn chars_to_string(v: Vec<char>) -> (r: String)
    ensures
        r@ == v@,
{
    v.into_iter().collect()
}

/// Relies on `serde_json::to_string`: on a `Value` it cannot fail, and its
/// output depends on the value alone.
#[verifier::external_body]
pub fn value_to_chars(v: &Value) -> (r: Vec<char>)
    ensures
        r@ == value_text(*v),
{
    serde_json::to_string(v).unwrap_or_default().chars().collect()
}

/// Relies on `serde_json::from_str` being a deterministic function of the
/// text: failure means the text does not reparse, and on success the text
/// reparses exactly when the returned value's canonical text is the input.
#[verifier::external_body]
pub fn chars_to_value(s: &Vec<char>) -> (r: Option<Value>)
    ensures
        r is None ==> !reparses(s@),
        r matches Some(w) ==> (reparses(s@) <==> value_text(w) == s@),
{
    let text: String = s.iter().collect();
    serde_json::from_str(&text).ok()
}

// ---------------------------------------------------------------------------
// verified layer over the bridge
// ---------------------------------------------------------------------------

/// Does this value's canonical text read back as the same value? The one
/// verified check a payload needs before it can be promised to round-trip.
pub fn value_reparses(v: &Value) -> (r: bool)
    ensures
        r == reparses(value_text(*v)),
{
    let cs = value_to_chars(v);
    match chars_to_value(&cs) {
        None => false,
        Some(w) => {
            let c2 = value_to_chars(&w);
            eq_chars(&c2, &cs)
        },
    }
}

/// The view of an optional extension payload: its canonical text.
pub open spec fn val_opt_view(o: Option<Value>) -> Option<Seq<char>> {
    match o {
        None => None,
        Some(v) => Some(value_text(v)),
    }
}

/// The wire form of an extension: `null`, or the canonical text of the value
/// carried as a JSON string.
pub open spec fn jext(o: Option<Seq<char>>) -> Seq<char> {
    jopt(o, jstr_f())
}

pub open spec fn p_ext(s: Seq<char>) -> Option<(Option<Seq<char>>, Seq<char>)> {
    match p_opt(s, pf_jstr()) {
        Some((o, r)) => match o {
            None => Some((None, r)),
            Some(t) => if reparses(t) {
                Some((Some(t), r))
            } else {
                None
            },
        },
        None => None,
    }
}

pub proof fn lemma_p_ext(o: Option<Seq<char>>, rest: Seq<char>)
    requires
        o matches Some(t) ==> reparses(t),
    ensures
        p_ext(jext(o) + rest) == Some((o, rest)),
{
    match o {
        None => {
            lemma_p_opt_none(rest, pf_jstr());
        },
        Some(t) => {
            lemma_p_jstr(t, rest);
            assert(jstr_f()(t) == jstr(t));
            assert(jstr(t)[0] == '"');
            lemma_p_opt_some(t, rest, jstr_f(), pf_jstr());
        },
    }
}

pub fn write_ext(out: &mut Vec<char>, o: &Option<Value>) -> (u: ())
    ensures
        final(out)@ == old(out)@ + jext(val_opt_view(*o)),
{
    match o {
        None => {
            crate::jsontext::push_lit(out, "null");
        },
        Some(v) => {
            let cs = value_to_chars(v);
            crate::jsontext::write_jstr_chars(out, &cs);
        },
    }
}

pub fn parse_ext(s: &Vec<char>, i: usize) -> (r: Option<(Option<Value>, usize)>)
    requires
        i <= s@.len(),
    ensures
        match r {
            Some(p) => p.1 <= s@.len() && p_ext(s@.skip(i as int)) == Some(
                (val_opt_view(p.0), s@.skip(p.1 as int)),
            ) && (p.0 matches Some(w) ==> reparses(value_text(w))),
            None => p_ext(s@.skip(i as int)) is None,
        },
{
    proof {
        reveal_strlit("null");
    }
    match expect_lit(s, i, "null") {
        Some(j) => Some((None, j)),
        None => match parse_jstr(s, i) {
            Some((t, j)) => {
                match chars_to_value(&t) {
                    Some(w) => {
                        let c2 = value_to_chars(&w);
                        if eq_chars(&c2, &t) {
                            proof {
                                assert(reparses(t@));
                            }
                            Some((Some(w), j))
                        } else {
                            proof {
                                assert(!reparses(t@));
                            }
                            None
                        }
                    },
                    None => {
                        proof {
                            assert(!reparses(t@));
                        }
                        None
                    },
                }
            },
            None => None,
        },
    }
}

/// Relies on `serde_json::Value`'s `Clone`: a deep copy is the same value.
pub assume_specification [ <Value as Clone>::clone ](v: &Value) -> (r: Value)
    ensures
        r == *v,
;

} // verus!
