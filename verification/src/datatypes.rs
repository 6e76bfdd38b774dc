//! Reusable FHIR building blocks: `Period`, `Instant`, `DateTime`,
//! `HumanName`, `ContactPoint`, `Address`. Each type carries a mathematical
//! view, a canonical JSON text, a writer proved to emit that text, a parser
//! proved to match the spec parser, and a round-trip proof.

use vstd::prelude::*;
use crate::jsontext::{jstr, p_jstr, lemma_p_jstr, parse_jstr, write_jstr, p_lit, lemma_p_lit,
    expect_lit, push_lit, jopt, p_opt, lemma_p_opt_none, lemma_p_opt_some, jarr, jitems, p_arr,
    p_items, prepend_items, lemma_prepend_items_assoc, lemma_jitems_push, lemma_p_arr_jstr,
    lemma_p_jstr_consumes, jstr_f, pf_jstr, dec, p_u32, lemma_p_u32, parse_u32, write_u32,
    is_digit, lemma_dec_shape, lemma_p_arr};
use crate::jsonval::chars_to_string;
use crate::valuesets::{FhirNameUse, FhirContactPointSystem, FhirContactPointUse, FhirAddressUse,
    FhirAddressType, name_use_code, cp_system_code, cp_use_code, address_use_code,
    address_type_code, p_name_use, p_cp_system, p_cp_use, p_address_use, p_address_type,
    parse_name_use, parse_cp_system, parse_cp_use, parse_address_use, parse_address_type,
    lemma_name_use_roundtrip, lemma_cp_system_roundtrip, lemma_cp_use_roundtrip,
    lemma_address_use_roundtrip, lemma_address_type_roundtrip};

verus! {

// https://www.hl7.org/fhir/datatypes.html#instant
#[derive(Debug, Clone, PartialEq, Eq)]
pub struct FhirInstant(pub String);

impl View for FhirInstant {
    type V = Seq<char>;

    open spec fn view(&self) -> Seq<char> {
        self.0@
    }
}

// https://www.hl7.org/fhir/datatypes.html#dateTime
#[derive(Debug, Clone, PartialEq, Eq)]
pub struct FhirDateTime(pub String);

impl View for FhirDateTime {
    type V = Seq<char>;

    open spec fn view(&self) -> Seq<char> {
        self.0@
    }
}

// https://www.hl7.org/fhir/datatypes.html#Period
#[derive(Debug, Clone, PartialEq, Eq)]
pub struct FhirPeriod {
    pub start: FhirDateTime,
    pub end: FhirDateTime,
}

#[verifier::ext_equal]
pub ghost struct PeriodV {
    pub start: Seq<char>,
    pub end: Seq<char>,
}

impl View for FhirPeriod {
    type V = PeriodV;

    open spec fn view(&self) -> PeriodV {
        PeriodV { start: self.start@, end: self.end@ }
    }
}

pub open spec fn period_json(p: PeriodV) -> Seq<char> {
    "{\"start\":"@ + jstr(p.start) + ",\"end\":"@ + jstr(p.end) + "}"@
}

pub open spec fn p_period(s: Seq<char>) -> Option<(PeriodV, Seq<char>)> {
    match p_lit(s, "{\"start\":"@) {
        Some(s1) => match p_jstr(s1) {
            Some((a, s2)) => match p_lit(s2, ",\"end\":"@) {
                Some(s3) => match p_jstr(s3) {
                    Some((b, s4)) => match p_lit(s4, "}"@) {
                        Some(s5) => Some((PeriodV { start: a, end: b }, s5)),
                        None => None,
                    },
                    None => None,
                },
                None => None,
            },
            None => None,
        },
        None => None,
    }
}

pub open spec fn f_period() -> spec_fn(PeriodV) -> Seq<char> {
    |p: PeriodV| period_json(p)
}

pub open spec fn pf_period() -> spec_fn(Seq<char>) -> Option<(PeriodV, Seq<char>)> {
    |s: Seq<char>| p_period(s)
}

pub proof fn lemma_p_period(p: PeriodV, rest: Seq<char>)
    ensures
        p_period(period_json(p) + rest) == Some((p, rest)),
{
    let y3 = "}"@ + rest;
    let y2 = ",\"end\":"@ + (jstr(p.end) + y3);
    let y1 = "{\"start\":"@ + (jstr(p.start) + y2);
    assert(period_json(p) + rest =~= y1);
    lemma_p_lit("{\"start\":"@, jstr(p.start) + y2);
    lemma_p_jstr(p.start, y2);
    lemma_p_lit(",\"end\":"@, jstr(p.end) + y3);
    lemma_p_jstr(p.end, y3);
    lemma_p_lit("}"@, rest);
    assert(p_period(y1) == Some((PeriodV { start: p.start, end: p.end }, rest)));
    assert(PeriodV { start: p.start, end: p.end } =~= p);
}

pub fn write_period(out: &mut Vec<char>, p: &FhirPeriod) -> (u: ())
    ensures
        final(out)@ == old(out)@ + period_json(p@),
{
    push_lit(out, "{\"start\":");
    write_jstr(out, self_str(&p.start.0));
    push_lit(out, ",\"end\":");
    write_jstr(out, self_str(&p.end.0));
    push_lit(out, "}");
    proof {
        assert(out@ =~= old(out)@ + period_json(p@));
    }
}

/// View a string as a slice (kept explicit so contracts stay on views).
pub fn self_str(s: &String) -> (r: &str)
    ensures
        r@ == s@,
{
    s.as_str()
}

pub fn parse_period(s: &Vec<char>, i: usize) -> (r: Option<(FhirPeriod, usize)>)
    requires
        i <= s@.len(),
    ensures
        match r {
            Some(p) => p.1 <= s@.len() && p_period(s@.skip(i as int)) == Some(
                (p.0@, s@.skip(p.1 as int)),
            ),
            None => p_period(s@.skip(i as int)) is None,
        },
{
    let j = match expect_lit(s, i, "{\"start\":") {
        Some(j) => j,
        None => {
            return None;
        },
    };
    let (a, j) = match parse_jstr(s, j) {
        Some(x) => x,
        None => {
            return None;
        },
    };
    let j = match expect_lit(s, j, ",\"end\":") {
        Some(j) => j,
        None => {
            return None;
        },
    };
    let (b, j) = match parse_jstr(s, j) {
        Some(x) => x,
        None => {
            return None;
        },
    };
    let j = match expect_lit(s, j, "}") {
        Some(j) => j,
        None => {
            return None;
        },
    };
    Some((FhirPeriod { start: FhirDateTime(chars_to_string(a)), end: FhirDateTime(chars_to_string(b)) }, j))
}

// ---------------------------------------------------------------------------
// optional period
// ---------------------------------------------------------------------------

pub open spec fn opt_period_view(o: Option<FhirPeriod>) -> Option<PeriodV> {
    match o {
        None => None,
        Some(p) => Some(p@),
    }
}

pub proof fn lemma_p_opt_period(o: Option<PeriodV>, rest: Seq<char>)
    ensures
        p_opt(jopt(o, f_period()) + rest, pf_period()) == Some((o, rest)),
{
    match o {
        None => {
            lemma_p_opt_none(rest, pf_period());
        },
        Some(p) => {
            lemma_p_period(p, rest);
            reveal_strlit("{\"start\":");
            assert(period_json(p)[0] == '{');
            lemma_p_opt_some(p, rest, f_period(), pf_period());
        },
    }
}

pub fn write_opt_period(out: &mut Vec<char>, o: &Option<FhirPeriod>) -> (u: ())
    ensures
        final(out)@ == old(out)@ + jopt(opt_period_view(*o), f_period()),
{
    match o {
        None => {
            push_lit(out, "null");
        },
        Some(p) => {
            write_period(out, p);
        },
    }
}

pub fn parse_opt_period(s: &Vec<char>, i: usize) -> (r: Option<(Option<FhirPeriod>, usize)>)
    requires
        i <= s@.len(),
    ensures
        match r {
            Some(p) => p.1 <= s@.len() && p_opt(s@.skip(i as int), pf_period()) == Some(
                (opt_period_view(p.0), s@.skip(p.1 as int)),
            ),
            None => p_opt(s@.skip(i as int), pf_period()) is None,
        },
{
    proof {
        reveal_strlit("null");
    }
    match expect_lit(s, i, "null") {
        Some(j) => Some((None, j)),
        None => match parse_period(s, i) {
            Some((p, j)) => Some((Some(p), j)),
            None => None,
        },
    }
}

// ---------------------------------------------------------------------------
// arrays of strings
// ---------------------------------------------------------------------------

pub fn write_str_arr(out: &mut Vec<char>, items: &Vec<String>) -> (u: ())
    ensures
        final(out)@ == old(out)@ + jarr(items.deep_view(), jstr_f()),
{
    out.push('[');
    let mut k: usize = 0;
    while k < items.len()
        invariant
            k <= items.len(),
            out@ == old(out)@ + seq!['['] + jitems(items.deep_view().take(k as int), jstr_f()),
        decreases items.len() - k,
    {
        if k > 0 {
            out.push(',');
        }
        write_jstr(out, self_str(&items[k]));
        proof {
            let dv = items.deep_view();
            assert(dv.take(k + 1) =~= dv.take(k as int).push(dv[k as int]));
            lemma_jitems_push(dv.take(k as int), dv[k as int], jstr_f());
            assert(dv[k as int] == items[k as int]@);
            assert(jstr_f()(dv[k as int]) == jstr(items[k as int]@));
            assert(out@ =~= old(out)@ + seq!['['] + jitems(dv.take(k + 1), jstr_f()));
        }
        k += 1;
    }
    out.push(']');
    proof {
        let dv = items.deep_view();
        assert(dv.take(dv.len() as int) =~= dv);
        if dv.len() == 0 {
            assert(out@ =~= old(out)@ + jarr(dv, jstr_f()));
        } else {
            assert(out@ =~= old(out)@ + jarr(dv, jstr_f()));
        }
    }
}

pub fn parse_str_arr(s: &Vec<char>, i: usize) -> (r: Option<(Vec<String>, usize)>)
    requires
        i <= s@.len(),
    ensures
        match r {
            Some(p) => p.1 <= s@.len() && p_arr(s@.skip(i as int), pf_jstr()) == Some(
                (p.0.deep_view(), s@.skip(p.1 as int)),
            ),
            None => p_arr(s@.skip(i as int), pf_jstr()) is None,
        },
{
    let n = s.len();
    if i >= n || s[i] != '[' {
        proof {
            if s@.skip(i as int).len() >= 1 {
                assert(s@.skip(i as int)[0] == s@[i as int]);
            }
        }
        return None;
    }
    proof {
        assert(s@.skip(i as int)[0] == '[');
    }
    if i + 1 < n && s[i + 1] == ']' {
        let empty: Vec<String> = Vec::new();
        proof {
            assert(s@.skip(i as int)[1] == ']');
            assert(s@.skip(i as int).skip(2) =~= s@.skip(i + 2));
            assert(empty.deep_view() =~= Seq::<Seq<char>>::empty());
        }
        return Some((empty, i + 2));
    }
    proof {
        if s@.skip(i as int).len() >= 2 {
            assert(s@.skip(i as int)[1] == s@[i + 1]);
        }
        assert(!(s@.skip(i as int).len() >= 2 && s@.skip(i as int)[0] == '[' && s@.skip(i as int)[1]
            == ']'));
        assert(s@.skip(i as int).skip(1) =~= s@.skip(i + 1));
    }
    let mut acc: Vec<String> = Vec::new();
    let mut cur: usize = i + 1;
    proof {
        assert(acc.deep_view() =~= Seq::<Seq<char>>::empty());
        match p_items(s@.skip(i + 1), pf_jstr()) {
            Some((t, r)) => {
                assert(Seq::<Seq<char>>::empty() + t =~= t);
            },
            None => {},
        }
    }
    loop
        invariant
            i + 1 <= cur <= n,
            n == s@.len(),
            p_arr(s@.skip(i as int), pf_jstr()) == p_items(s@.skip(i + 1), pf_jstr()),
            p_items(s@.skip(i + 1), pf_jstr()) == prepend_items(
                acc.deep_view(),
                p_items(s@.skip(cur as int), pf_jstr()),
            ),
        decreases s@.len() - cur,
    {
        let ghost scur = s@.skip(cur as int);
        match parse_jstr(s, cur) {
            None => {
                return None;
            },
            Some((t, j)) => {
                proof {
                    lemma_p_jstr_consumes(scur);
                    assert(s@.skip(j as int).len() < scur.len());
                }
                let ghost dv0 = acc.deep_view();
                acc.push(chars_to_string(t));
                proof {
                    assert(acc.deep_view() =~= dv0.push(t@));
                }
                if j < n && s[j] == ',' {
                    proof {
                        let rj = s@.skip(j as int);
                        assert(rj[0] == ',');
                        assert(rj.skip(1) =~= s@.skip(j + 1));
                        assert(p_items(scur, pf_jstr()) == prepend_items(
                            seq![t@],
                            p_items(s@.skip(j + 1), pf_jstr()),
                        ));
                        lemma_prepend_items_assoc(
                            dv0,
                            seq![t@],
                            p_items(s@.skip(j + 1), pf_jstr()),
                        );
                        assert(dv0 + seq![t@] =~= dv0.push(t@));
                    }
                    cur = j + 1;
                } else if j < n && s[j] == ']' {
                    proof {
                        let rj = s@.skip(j as int);
                        assert(rj[0] == ']');
                        assert(rj.skip(1) =~= s@.skip(j + 1));
                        assert(p_items(scur, pf_jstr()) == Some((seq![t@], s@.skip(j + 1))));
                        assert(dv0 + seq![t@] =~= dv0.push(t@));
                    }
                    return Some((acc, j + 1));
                } else {
                    proof {
                        let rj = s@.skip(j as int);
                        if rj.len() >= 1 {
                            assert(rj[0] == s@[j as int]);
                        }
                        assert(p_items(scur, pf_jstr()) is None);
                    }
                    return None;
                }
            },
        }
    }
}

// ---------------------------------------------------------------------------
// HumanName
// ---------------------------------------------------------------------------

// https://www.hl7.org/fhir/datatypes.html#HumanName
#[derive(Debug, Clone, PartialEq, Eq)]
pub struct FhirHumanName {
    pub name_use: FhirNameUse,
    pub text: String,
    pub family: String,
    pub given: Vec<String>,
    pub prefix: Vec<String>,
    pub suffix: Vec<String>,
    pub period: Option<FhirPeriod>,
}

#[verifier::ext_equal]
pub ghost struct HumanNameV {
    pub name_use: FhirNameUse,
    pub text: Seq<char>,
    pub family: Seq<char>,
    pub given: Seq<Seq<char>>,
    pub prefix: Seq<Seq<char>>,
    pub suffix: Seq<Seq<char>>,
    pub period: Option<PeriodV>,
}

impl View for FhirHumanName {
    type V = HumanNameV;

    open spec fn view(&self) -> HumanNameV {
        HumanNameV {
            name_use: self.name_use,
            text: self.text@,
            family: self.family@,
            given: self.given.deep_view(),
            prefix: self.prefix.deep_view(),
            suffix: self.suffix.deep_view(),
            period: opt_period_view(self.period),
        }
    }
}

pub open spec fn human_name_json(h: HumanNameV) -> Seq<char> {
    "{\"use\":"@ + jstr(name_use_code(h.name_use)) + ",\"text\":"@ + jstr(h.text) + ",\"family\":"@
        + jstr(h.family) + ",\"given\":"@ + jarr(h.given, jstr_f()) + ",\"prefix\":"@ + jarr(
        h.prefix,
        jstr_f(),
    ) + ",\"suffix\":"@ + jarr(h.suffix, jstr_f()) + ",\"period\":"@ + jopt(h.period, f_period())
        + "}"@
}

pub open spec fn p_human_name(s: Seq<char>) -> Option<(HumanNameV, Seq<char>)> {
    match p_lit(s, "{\"use\":"@) {
        Some(s1) => match p_name_use(s1) {
            Some((u, s2)) => match p_lit(s2, ",\"text\":"@) {
                Some(s3) => match p_jstr(s3) {
                    Some((text, s4)) => match p_lit(s4, ",\"family\":"@) {
                        Some(s5) => match p_jstr(s5) {
                            Some((family, s6)) => match p_lit(s6, ",\"given\":"@) {
                                Some(s7) => match p_arr(s7, pf_jstr()) {
                                    Some((given, s8)) => match p_lit(s8, ",\"prefix\":"@) {
                                        Some(s9) => match p_arr(s9, pf_jstr()) {
                                            Some((prefix, s10)) => match p_lit(
                                                s10,
                                                ",\"suffix\":"@,
                                            ) {
                                                Some(s11) => match p_arr(s11, pf_jstr()) {
                                                    Some((suffix, s12)) => match p_lit(
                                                        s12,
                                                        ",\"period\":"@,
                                                    ) {
                                                        Some(s13) => match p_opt(
                                                            s13,
                                                            pf_period(),
                                                        ) {
                                                            Some((period, s14)) => match p_lit(
                                                                s14,
                                                                "}"@,
                                                            ) {
                                                                Some(s15) => Some(
                                                                    (
                                                                        HumanNameV {
                                                                            name_use: u,
                                                                            text,
                                                                            family,
                                                                            given,
                                                                            prefix,
                                                                            suffix,
                                                                            period,
                                                                        },
                                                                        s15,
                                                                    ),
                                                                ),
                                                                None => None,
                                                            },
                                                            None => None,
                                                        },
                                                        None => None,
                                                    },
                                                    None => None,
                                                },
                                                None => None,
                                            },
                                            None => None,
                                        },
                                        None => None,
                                    },
                                    None => None,
                                },
                                None => None,
                            },
                            None => None,
                        },
                        None => None,
                    },
                    None => None,
                },
                None => None,
            },
            None => None,
        },
        None => None,
    }
}

pub proof fn lemma_p_human_name(h: HumanNameV, rest: Seq<char>)
    ensures
        p_human_name(human_name_json(h) + rest) == Some((h, rest)),
{
    let c1 = jstr(name_use_code(h.name_use));
    let c2 = jstr(h.text);
    let c3 = jstr(h.family);
    let c4 = jarr(h.given, jstr_f());
    let c5 = jarr(h.prefix, jstr_f());
    let c6 = jarr(h.suffix, jstr_f());
    let c7 = jopt(h.period, f_period());
    let t14 = "}"@ + rest;
    let t13 = c7 + t14;
    let t12 = ",\"period\":"@ + t13;
    let t11 = c6 + t12;
    let t10 = ",\"suffix\":"@ + t11;
    let t9 = c5 + t10;
    let t8 = ",\"prefix\":"@ + t9;
    let t7 = c4 + t8;
    let t6 = ",\"given\":"@ + t7;
    let t5 = c3 + t6;
    let t4 = ",\"family\":"@ + t5;
    let t3 = c2 + t4;
    let t2 = ",\"text\":"@ + t3;
    let t1 = c1 + t2;
    let t0 = "{\"use\":"@ + t1;
    vstd::seq_lib::lemma_concat_associative("{\"use\":"@ + c1 + ",\"text\":"@ + c2 + ",\"family\":"@ + c3 + ",\"given\":"@ + c4 + ",\"prefix\":"@ + c5 + ",\"suffix\":"@ + c6 + ",\"period\":"@ + c7, "}"@, rest);
    vstd::seq_lib::lemma_concat_associative("{\"use\":"@ + c1 + ",\"text\":"@ + c2 + ",\"family\":"@ + c3 + ",\"given\":"@ + c4 + ",\"prefix\":"@ + c5 + ",\"suffix\":"@ + c6 + ",\"period\":"@, c7, t14);
    vstd::seq_lib::lemma_concat_associative("{\"use\":"@ + c1 + ",\"text\":"@ + c2 + ",\"family\":"@ + c3 + ",\"given\":"@ + c4 + ",\"prefix\":"@ + c5 + ",\"suffix\":"@ + c6, ",\"period\":"@, t13);
    vstd::seq_lib::lemma_concat_associative("{\"use\":"@ + c1 + ",\"text\":"@ + c2 + ",\"family\":"@ + c3 + ",\"given\":"@ + c4 + ",\"prefix\":"@ + c5 + ",\"suffix\":"@, c6, t12);
    vstd::seq_lib::lemma_concat_associative("{\"use\":"@ + c1 + ",\"text\":"@ + c2 + ",\"family\":"@ + c3 + ",\"given\":"@ + c4 + ",\"prefix\":"@ + c5, ",\"suffix\":"@, t11);
    vstd::seq_lib::lemma_concat_associative("{\"use\":"@ + c1 + ",\"text\":"@ + c2 + ",\"family\":"@ + c3 + ",\"given\":"@ + c4 + ",\"prefix\":"@, c5, t10);
    vstd::seq_lib::lemma_concat_associative("{\"use\":"@ + c1 + ",\"text\":"@ + c2 + ",\"family\":"@ + c3 + ",\"given\":"@ + c4, ",\"prefix\":"@, t9);
    vstd::seq_lib::lemma_concat_associative("{\"use\":"@ + c1 + ",\"text\":"@ + c2 + ",\"family\":"@ + c3 + ",\"given\":"@, c4, t8);
    vstd::seq_lib::lemma_concat_associative("{\"use\":"@ + c1 + ",\"text\":"@ + c2 + ",\"family\":"@ + c3, ",\"given\":"@, t7);
    vstd::seq_lib::lemma_concat_associative("{\"use\":"@ + c1 + ",\"text\":"@ + c2 + ",\"family\":"@, c3, t6);
    vstd::seq_lib::lemma_concat_associative("{\"use\":"@ + c1 + ",\"text\":"@ + c2, ",\"family\":"@, t5);
    vstd::seq_lib::lemma_concat_associative("{\"use\":"@ + c1 + ",\"text\":"@, c2, t4);
    vstd::seq_lib::lemma_concat_associative("{\"use\":"@ + c1, ",\"text\":"@, t3);
    vstd::seq_lib::lemma_concat_associative("{\"use\":"@, c1, t2);
    assert(human_name_json(h) + rest == t0);
    lemma_p_lit("{\"use\":"@, t1);
    lemma_name_use_roundtrip(h.name_use, t2);
    lemma_p_lit(",\"text\":"@, t3);
    lemma_p_jstr(h.text, t4);
    lemma_p_lit(",\"family\":"@, t5);
    lemma_p_jstr(h.family, t6);
    lemma_p_lit(",\"given\":"@, t7);
    lemma_p_arr_jstr(h.given, t8);
    lemma_p_lit(",\"prefix\":"@, t9);
    lemma_p_arr_jstr(h.prefix, t10);
    lemma_p_lit(",\"suffix\":"@, t11);
    lemma_p_arr_jstr(h.suffix, t12);
    lemma_p_lit(",\"period\":"@, t13);
    lemma_p_opt_period(h.period, t14);
    lemma_p_lit("}"@, rest);
    assert(p_human_name(t0) == Some((HumanNameV {
        name_use: h.name_use,
        text: h.text,
        family: h.family,
        given: h.given,
        prefix: h.prefix,
        suffix: h.suffix,
        period: h.period,
    }, rest)));
    assert(HumanNameV {
        name_use: h.name_use,
        text: h.text,
        family: h.family,
        given: h.given,
        prefix: h.prefix,
        suffix: h.suffix,
        period: h.period,
    } =~= h);
}

pub fn write_human_name(out: &mut Vec<char>, h: &FhirHumanName) -> (u: ())
    ensures
        final(out)@ == old(out)@ + human_name_json(h@),
{
    push_lit(out, "{\"use\":");
    write_jstr(out, h.name_use.code_str());
    push_lit(out, ",\"text\":");
    write_jstr(out, self_str(&h.text));
    push_lit(out, ",\"family\":");
    write_jstr(out, self_str(&h.family));
    push_lit(out, ",\"given\":");
    write_str_arr(out, &h.given);
    push_lit(out, ",\"prefix\":");
    write_str_arr(out, &h.prefix);
    push_lit(out, ",\"suffix\":");
    write_str_arr(out, &h.suffix);
    push_lit(out, ",\"period\":");
    write_opt_period(out, &h.period);
    push_lit(out, "}");
    proof {
        assert(out@ =~= old(out)@ + human_name_json(h@));
    }
}

pub fn parse_human_name(s: &Vec<char>, i: usize) -> (r: Option<(FhirHumanName, usize)>)
    requires
        i <= s@.len(),
    ensures
        match r {
            Some(p) => p.1 <= s@.len() && p_human_name(s@.skip(i as int)) == Some(
                (p.0@, s@.skip(p.1 as int)),
            ),
            None => p_human_name(s@.skip(i as int)) is None,
        },
{
    let j = match expect_lit(s, i, "{\"use\":") {
        Some(j) => j,
        None => {
            return None;
        },
    };
    let (u, j) = match parse_name_use(s, j) {
        Some(x) => x,
        None => {
            return None;
        },
    };
    let j = match expect_lit(s, j, ",\"text\":") {
        Some(j) => j,
        None => {
            return None;
        },
    };
    let (text, j) = match parse_jstr(s, j) {
        Some(x) => x,
        None => {
            return None;
        },
    };
    let j = match expect_lit(s, j, ",\"family\":") {
        Some(j) => j,
        None => {
            return None;
        },
    };
    let (family, j) = match parse_jstr(s, j) {
        Some(x) => x,
        None => {
            return None;
        },
    };
    let j = match expect_lit(s, j, ",\"given\":") {
        Some(j) => j,
        None => {
            return None;
        },
    };
    let (given, j) = match parse_str_arr(s, j) {
        Some(x) => x,
        None => {
            return None;
        },
    };
    let j = match expect_lit(s, j, ",\"prefix\":") {
        Some(j) => j,
        None => {
            return None;
        },
    };
    let (prefix, j) = match parse_str_arr(s, j) {
        Some(x) => x,
        None => {
            return None;
        },
    };
    let j = match expect_lit(s, j, ",\"suffix\":") {
        Some(j) => j,
        None => {
            return None;
        },
    };
    let (suffix, j) = match parse_str_arr(s, j) {
        Some(x) => x,
        None => {
            return None;
        },
    };
    let j = match expect_lit(s, j, ",\"period\":") {
        Some(j) => j,
        None => {
            return None;
        },
    };
    let (period, j) = match parse_opt_period(s, j) {
        Some(x) => x,
        None => {
            return None;
        },
    };
    let j = match expect_lit(s, j, "}") {
        Some(j) => j,
        None => {
            return None;
        },
    };
    Some(
        (
            FhirHumanName {
                name_use: u,
                text: chars_to_string(text),
                family: chars_to_string(family),
                given,
                prefix,
                suffix,
                period,
            },
            j,
        ),
    )
}

impl FhirHumanName {
    /// A simply constructed official name: the whole text also stands as the
    /// family name, unchanged.
    pub fn new_simple(text: String) -> (r: Self)
        ensures
            r@.name_use == FhirNameUse::Official,
            r@.text == text@,
            r@.family == text@,
            r@.given == Seq::<Seq<char>>::empty(),
            r@.prefix == Seq::<Seq<char>>::empty(),
            r@.suffix == Seq::<Seq<char>>::empty(),
            r@.period is None,
    {
        let family = text.clone();
        let r = FhirHumanName {
            name_use: FhirNameUse::Official,
            text,
            family,
            given: Vec::new(),
            prefix: Vec::new(),
            suffix: Vec::new(),
            period: None,
        };
        proof {
            assert(r.given.deep_view() =~= Seq::<Seq<char>>::empty());
            assert(r.prefix.deep_view() =~= Seq::<Seq<char>>::empty());
            assert(r.suffix.deep_view() =~= Seq::<Seq<char>>::empty());
        }
        r
    }
}

// ---------------------------------------------------------------------------
// optional strings and optional numbers
// ---------------------------------------------------------------------------

pub open spec fn opt_str_view(o: Option<String>) -> Option<Seq<char>> {
    match o {
        None => None,
        Some(t) => Some(t@),
    }
}

pub proof fn lemma_p_opt_jstr(o: Option<Seq<char>>, rest: Seq<char>)
    ensures
        p_opt(jopt(o, jstr_f()) + rest, pf_jstr()) == Some((o, rest)),
{
    match o {
        None => {
            lemma_p_opt_none(rest, pf_jstr());
        },
        Some(t) => {
            lemma_p_jstr(t, rest);
            assert(jstr_f()(t)[0] == '"');
            lemma_p_opt_some(t, rest, jstr_f(), pf_jstr());
        },
    }
}

pub fn write_opt_jstr(out: &mut Vec<char>, o: &Option<String>) -> (u: ())
    ensures
        final(out)@ == old(out)@ + jopt(opt_str_view(*o), jstr_f()),
{
    match o {
        None => {
            push_lit(out, "null");
        },
        Some(t) => {
            write_jstr(out, self_str(t));
        },
    }
}

pub fn parse_opt_jstr(s: &Vec<char>, i: usize) -> (r: Option<(Option<String>, usize)>)
    requires
        i <= s@.len(),
    ensures
        match r {
            Some(p) => p.1 <= s@.len() && p_opt(s@.skip(i as int), pf_jstr()) == Some(
                (opt_str_view(p.0), s@.skip(p.1 as int)),
            ),
            None => p_opt(s@.skip(i as int), pf_jstr()) is None,
        },
{
    proof {
        reveal_strlit("null");
    }
    match expect_lit(s, i, "null") {
        Some(j) => Some((None, j)),
        None => match parse_jstr(s, i) {
            Some((t, j)) => Some((Some(chars_to_string(t)), j)),
            None => None,
        },
    }
}

pub open spec fn f_dec() -> spec_fn(u32) -> Seq<char> {
    |n: u32| dec(n)
}

pub open spec fn pf_u32() -> spec_fn(Seq<char>) -> Option<(u32, Seq<char>)> {
    |s: Seq<char>| p_u32(s)
}

pub proof fn lemma_p_opt_u32(o: Option<u32>, rest: Seq<char>)
    requires
        rest.len() == 0 || !is_digit(rest[0]),
    ensures
        p_opt(jopt(o, f_dec()) + rest, pf_u32()) == Some((o, rest)),
{
    match o {
        None => {
            lemma_p_opt_none(rest, pf_u32());
        },
        Some(n) => {
            lemma_p_u32(n, rest);
            lemma_dec_shape(n);
            assert(is_digit(dec(n)[0]));
            assert(f_dec()(n)[0] != 'n');
            lemma_p_opt_some(n, rest, f_dec(), pf_u32());
        },
    }
}

pub fn write_opt_u32(out: &mut Vec<char>, o: &Option<u32>) -> (u: ())
    ensures
        final(out)@ == old(out)@ + jopt(*o, f_dec()),
{
    match o {
        None => {
            push_lit(out, "null");
        },
        Some(n) => {
            write_u32(out, *n);
        },
    }
}

pub fn parse_opt_u32(s: &Vec<char>, i: usize) -> (r: Option<(Option<u32>, usize)>)
    requires
        i <= s@.len(),
    ensures
        match r {
            Some(p) => p.1 <= s@.len() && p_opt(s@.skip(i as int), pf_u32()) == Some(
                (p.0, s@.skip(p.1 as int)),
            ),
            None => p_opt(s@.skip(i as int), pf_u32()) is None,
        },
{
    proof {
        reveal_strlit("null");
    }
    match expect_lit(s, i, "null") {
        Some(j) => Some((None, j)),
        None => match parse_u32(s, i) {
            Some((n, j)) => Some((Some(n), j)),
            None => None,
        },
    }
}

// https://www.hl7.org/fhir/datatypes.html#ContactPoint
#[derive(Debug, Clone, PartialEq, Eq)]
pub struct FhirContactPoint {
    pub system: FhirContactPointSystem,
    pub value: String,
    pub contact_use: FhirContactPointUse,
    pub period: Option<FhirPeriod>,
    pub rank: Option<u32>,
}

#[verifier::ext_equal]
pub ghost struct ContactPointV {
    pub system: FhirContactPointSystem,
    pub value: Seq<char>,
    pub contact_use: FhirContactPointUse,
    pub period: Option<PeriodV>,
    pub rank: Option<u32>,
}

impl View for FhirContactPoint {
    type V = ContactPointV;

    open spec fn view(&self) -> ContactPointV {
        ContactPointV {
            system: self.system,
            value: self.value@,
            contact_use: self.contact_use,
            period: opt_period_view(self.period),
            rank: self.rank,
        }
    }
}

pub open spec fn contact_point_json(v: ContactPointV) -> Seq<char> {
    "{\"system\":"@ + jstr(cp_system_code(v.system)) + ",\"value\":"@ + jstr(v.value) + ",\"use\":"@ + jstr(cp_use_code(v.contact_use)) + ",\"period\":"@ + jopt(v.period, f_period()) + ",\"rank\":"@ + jopt(v.rank, f_dec()) + "}"@
}

pub open spec fn f_contact_point() -> spec_fn(ContactPointV) -> Seq<char> {
    |v: ContactPointV| contact_point_json(v)
}

pub open spec fn pf_contact_point() -> spec_fn(Seq<char>) -> Option<(ContactPointV, Seq<char>)> {
    |s: Seq<char>| p_contact_point(s)
}

pub open spec fn p_contact_point(s: Seq<char>) -> Option<(ContactPointV, Seq<char>)> {
    match p_lit(s, "{\"system\":"@) {
        Some(s1) => match p_cp_system(s1) {
            Some((x_system, s2)) => match p_lit(s2, ",\"value\":"@) {
                Some(s3) => match p_jstr(s3) {
                    Some((x_value, s4)) => match p_lit(s4, ",\"use\":"@) {
                        Some(s5) => match p_cp_use(s5) {
                            Some((x_contact_use, s6)) => match p_lit(s6, ",\"period\":"@) {
                                Some(s7) => match p_opt(s7, pf_period()) {
                                    Some((x_period, s8)) => match p_lit(s8, ",\"rank\":"@) {
                                        Some(s9) => match p_opt(s9, pf_u32()) {
                                            Some((x_rank, s10)) => match p_lit(s10, "}"@) {
                                                Some(s11) => Some((
                                                    ContactPointV {
                                                        system: x_system,
                                                        value: x_value,
                                                        contact_use: x_contact_use,
                                                        period: x_period,
                                                        rank: x_rank,
                                                    },
                                                    s11,
                                                )),
                                                None => None,
                                            },
                                            None => None,
                                        },
                                        None => None,
                                    },
                                    None => None,
                                },
                                None => None,
                            },
                            None => None,
                        },
                        None => None,
                    },
                    None => None,
                },
                None => None,
            },
            None => None,
        },
        None => None,
    }
}

pub proof fn lemma_p_contact_point(v: ContactPointV, rest: Seq<char>)
    ensures
        p_contact_point(contact_point_json(v) + rest) == Some((v, rest)),
{
    let c1 = jstr(cp_system_code(v.system));
    let c2 = jstr(v.value);
    let c3 = jstr(cp_use_code(v.contact_use));
    let c4 = jopt(v.period, f_period());
    let c5 = jopt(v.rank, f_dec());
    let t10 = "}"@ + rest;
    let t9 = c5 + t10;
    let t8 = ",\"rank\":"@ + t9;
    let t7 = c4 + t8;
    let t6 = ",\"period\":"@ + t7;
    let t5 = c3 + t6;
    let t4 = ",\"use\":"@ + t5;
    let t3 = c2 + t4;
    let t2 = ",\"value\":"@ + t3;
    let t1 = c1 + t2;
    let t0 = "{\"system\":"@ + t1;
    vstd::seq_lib::lemma_concat_associative("{\"system\":"@ + c1 + ",\"value\":"@ + c2 + ",\"use\":"@ + c3 + ",\"period\":"@ + c4 + ",\"rank\":"@ + c5, "}"@, rest);
    vstd::seq_lib::lemma_concat_associative("{\"system\":"@ + c1 + ",\"value\":"@ + c2 + ",\"use\":"@ + c3 + ",\"period\":"@ + c4 + ",\"rank\":"@, c5, t10);
    vstd::seq_lib::lemma_concat_associative("{\"system\":"@ + c1 + ",\"value\":"@ + c2 + ",\"use\":"@ + c3 + ",\"period\":"@ + c4, ",\"rank\":"@, t9);
    vstd::seq_lib::lemma_concat_associative("{\"system\":"@ + c1 + ",\"value\":"@ + c2 + ",\"use\":"@ + c3 + ",\"period\":"@, c4, t8);
    vstd::seq_lib::lemma_concat_associative("{\"system\":"@ + c1 + ",\"value\":"@ + c2 + ",\"use\":"@ + c3, ",\"period\":"@, t7);
    vstd::seq_lib::lemma_concat_associative("{\"system\":"@ + c1 + ",\"value\":"@ + c2 + ",\"use\":"@, c3, t6);
    vstd::seq_lib::lemma_concat_associative("{\"system\":"@ + c1 + ",\"value\":"@ + c2, ",\"use\":"@, t5);
    vstd::seq_lib::lemma_concat_associative("{\"system\":"@ + c1 + ",\"value\":"@, c2, t4);
    vstd::seq_lib::lemma_concat_associative("{\"system\":"@ + c1, ",\"value\":"@, t3);
    vstd::seq_lib::lemma_concat_associative("{\"system\":"@, c1, t2);
    assert(contact_point_json(v) + rest == t0);
    lemma_p_lit("{\"system\":"@, t1);
    lemma_cp_system_roundtrip(v.system, t2);
    lemma_p_lit(",\"value\":"@, t3);
    lemma_p_jstr(v.value, t4);
    lemma_p_lit(",\"use\":"@, t5);
    lemma_cp_use_roundtrip(v.contact_use, t6);
    lemma_p_lit(",\"period\":"@, t7);
    lemma_p_opt_period(v.period, t8);
    lemma_p_lit(",\"rank\":"@, t9);
    reveal_strlit("}"); lemma_p_opt_u32(v.rank, t10);
    lemma_p_lit("}"@, rest);
    assert(p_contact_point(t0) == Some((ContactPointV { system: v.system, value: v.value, contact_use: v.contact_use, period: v.period, rank: v.rank }, rest)));
    assert(ContactPointV { system: v.system, value: v.value, contact_use: v.contact_use, period: v.period, rank: v.rank } =~= v);
}

pub fn write_contact_point(out: &mut Vec<char>, x: &FhirContactPoint) -> (u: ())
    ensures
        final(out)@ == old(out)@ + contact_point_json(x@),
{
    push_lit(out, "{\"system\":");
    write_jstr(out, x.system.code_str());
    push_lit(out, ",\"value\":");
    write_jstr(out, self_str(&x.value));
    push_lit(out, ",\"use\":");
    write_jstr(out, x.contact_use.code_str());
    push_lit(out, ",\"period\":");
    write_opt_period(out, &x.period);
    push_lit(out, ",\"rank\":");
    write_opt_u32(out, &x.rank);
    push_lit(out, "}");
    proof {
        assert(out@ =~= old(out)@ + contact_point_json(x@));
    }
}

pub fn parse_contact_point(s: &Vec<char>, i: usize) -> (r: Option<(FhirContactPoint, usize)>)
    requires
        i <= s@.len(),
    ensures
        match r {
            Some(p) => p.1 <= s@.len() && p_contact_point(s@.skip(i as int)) == Some(
                (p.0@, s@.skip(p.1 as int)),
            ),
            None => p_contact_point(s@.skip(i as int)) is None,
        },
{
    let j = match expect_lit(s, i, "{\"system\":") {
        Some(j) => j,
        None => {
            return None;
        },
    };
    let (x_system, j) = match parse_cp_system(s, j) {
        Some(x) => x,
        None => {
            return None;
        },
    };
    let j = match expect_lit(s, j, ",\"value\":") {
        Some(j) => j,
        None => {
            return None;
        },
    };
    let (x_value, j) = match parse_jstr(s, j) {
        Some(x) => x,
        None => {
            return None;
        },
    };
    let j = match expect_lit(s, j, ",\"use\":") {
        Some(j) => j,
        None => {
            return None;
        },
    };
    let (x_contact_use, j) = match parse_cp_use(s, j) {
        Some(x) => x,
        None => {
            return None;
        },
    };
    let j = match expect_lit(s, j, ",\"period\":") {
        Some(j) => j,
        None => {
            return None;
        },
    };
    let (x_period, j) = match parse_opt_period(s, j) {
        Some(x) => x,
        None => {
            return None;
        },
    };
    let j = match expect_lit(s, j, ",\"rank\":") {
        Some(j) => j,
        None => {
            return None;
        },
    };
    let (x_rank, j) = match parse_opt_u32(s, j) {
        Some(x) => x,
        None => {
            return None;
        },
    };
    let j = match expect_lit(s, j, "}") {
        Some(j) => j,
        None => {
            return None;
        },
    };
    let ret = FhirContactPoint {
        system: x_system,
        value: chars_to_string(x_value),
        contact_use: x_contact_use,
        period: x_period,
        rank: x_rank,
    };
    proof {
        assert(ret@ =~= ContactPointV {
            system: x_system,
            value: x_value@,
            contact_use: x_contact_use,
            period: opt_period_view(x_period),
            rank: x_rank,
        });
    }
    Some((ret, j))
}


impl FhirContactPoint {
    /// A mobile email contact.
    pub fn new_email(value: String) -> (r: Self)
        ensures
            r@.system == FhirContactPointSystem::Email,
            r@.value == value@,
            r@.contact_use == FhirContactPointUse::Mobile,
            r@.period is None,
            r@.rank is None,
    {
        FhirContactPoint {
            system: FhirContactPointSystem::Email,
            value,
            contact_use: FhirContactPointUse::Mobile,
            period: None,
            rank: None,
        }
    }

    /// A mobile phone contact.
    pub fn new_phone(value: String) -> (r: Self)
        ensures
            r@.system == FhirContactPointSystem::Phone,
            r@.value == value@,
            r@.contact_use == FhirContactPointUse::Mobile,
            r@.period is None,
            r@.rank is None,
    {
        FhirContactPoint {
            system: FhirContactPointSystem::Phone,
            value,
            contact_use: FhirContactPointUse::Mobile,
            period: None,
            rank: None,
        }
    }
}


pub proof fn lemma_p_arr_contact_point(items: Seq<ContactPointV>, rest: Seq<char>)
    ensures
        p_arr(jarr(items, f_contact_point()) + rest, pf_contact_point()) == Some((items, rest)),
{
    assert forall|v: ContactPointV, rr: Seq<char>| items.contains(v) implies #[trigger] pf_contact_point()(
        f_contact_point()(v) + rr,
    ) == Some((v, rr)) by {
        lemma_p_contact_point(v, rr);
    }
    assert forall|v: ContactPointV| items.contains(v) implies (#[trigger] f_contact_point()(v)).len() >= 1
        && f_contact_point()(v)[0] != ']' by {
        first_char_contact_point(v);
    }
    lemma_p_arr(items, rest, f_contact_point(), pf_contact_point());
}

proof fn first_char_contact_point(v: ContactPointV)
    ensures
        contact_point_json(v).len() >= 1,
        contact_point_json(v)[0] == '{',
{
    reveal_strlit("{\"system\":");
    assert(contact_point_json(v)[0] == "{\"system\":"@[0]);
}

pub fn write_contact_point_arr(out: &mut Vec<char>, items: &Vec<FhirContactPoint>) -> (u: ())
    ensures
        final(out)@ == old(out)@ + jarr(items@.map_values(|e: FhirContactPoint| e@), f_contact_point()),
{
    out.push('[');
    let mut k: usize = 0;
    while k < items.len()
        invariant
            k <= items.len(),
            out@ == old(out)@ + seq!['['] + jitems(
                items@.map_values(|e: FhirContactPoint| e@).take(k as int),
                f_contact_point(),
            ),
        decreases items.len() - k,
    {
        if k > 0 {
            out.push(',');
        }
        write_contact_point(out, &items[k]);
        proof {
            let dv = items@.map_values(|e: FhirContactPoint| e@);
            assert(dv.take(k + 1) =~= dv.take(k as int).push(dv[k as int]));
            lemma_jitems_push(dv.take(k as int), dv[k as int], f_contact_point());
            assert(f_contact_point()(dv[k as int]) == contact_point_json(items[k as int]@));
            assert(out@ =~= old(out)@ + seq!['['] + jitems(dv.take(k + 1), f_contact_point()));
        }
        k += 1;
    }
    out.push(']');
    proof {
        let dv = items@.map_values(|e: FhirContactPoint| e@);
        assert(dv.take(dv.len() as int) =~= dv);
        assert(out@ =~= old(out)@ + jarr(dv, f_contact_point()));
    }
}

pub fn parse_contact_point_arr(s: &Vec<char>, i: usize) -> (r: Option<(Vec<FhirContactPoint>, usize)>)
    requires
        i <= s@.len(),
    ensures
        match r {
            Some(p) => p.1 <= s@.len() && p_arr(s@.skip(i as int), pf_contact_point()) == Some(
                (p.0@.map_values(|e: FhirContactPoint| e@), s@.skip(p.1 as int)),
            ),
            None => p_arr(s@.skip(i as int), pf_contact_point()) is None,
        },
{
    let n = s.len();
    if i >= n || s[i] != '[' {
        proof {
            if s@.skip(i as int).len() >= 1 {
                assert(s@.skip(i as int)[0] == s@[i as int]);
            }
        }
        return None;
    }
    proof {
        assert(s@.skip(i as int)[0] == '[');
    }
    if i + 1 < n && s[i + 1] == ']' {
        let empty: Vec<FhirContactPoint> = Vec::new();
        proof {
            assert(s@.skip(i as int)[1] == ']');
            assert(s@.skip(i as int).skip(2) =~= s@.skip(i + 2));
            assert(empty@.map_values(|e: FhirContactPoint| e@) =~= Seq::<ContactPointV>::empty());
        }
        return Some((empty, i + 2));
    }
    proof {
        if s@.skip(i as int).len() >= 2 {
            assert(s@.skip(i as int)[1] == s@[i + 1]);
        }
        assert(s@.skip(i as int).skip(1) =~= s@.skip(i + 1));
    }
    let mut acc: Vec<FhirContactPoint> = Vec::new();
    let mut cur: usize = i + 1;
    proof {
        assert(acc@.map_values(|e: FhirContactPoint| e@) =~= Seq::<ContactPointV>::empty());
        match p_items(s@.skip(i + 1), pf_contact_point()) {
            Some((t, r)) => {
                assert(Seq::<ContactPointV>::empty() + t =~= t);
            },
            None => {},
        }
    }
    loop
        invariant
            i + 1 <= cur <= n,
            n == s@.len(),
            p_arr(s@.skip(i as int), pf_contact_point()) == p_items(s@.skip(i + 1), pf_contact_point()),
            p_items(s@.skip(i + 1), pf_contact_point()) == prepend_items(
                acc@.map_values(|e: FhirContactPoint| e@),
                p_items(s@.skip(cur as int), pf_contact_point()),
            ),
        decreases s@.len() - cur,
    {
        let ghost scur = s@.skip(cur as int);
        match parse_contact_point(s, cur) {
            None => {
                return None;
            },
            Some((t, j)) => {
                if j <= cur {
                    proof {
                        assert(s@.skip(j as int).len() >= scur.len());
                        assert(p_items(scur, pf_contact_point()) is None);
                    }
                    return None;
                }
                proof {
                    assert(s@.skip(j as int).len() < scur.len());
                }
                let ghost dv0 = acc@.map_values(|e: FhirContactPoint| e@);
                let ghost tv = t@;
                acc.push(t);
                proof {
                    assert(acc@.map_values(|e: FhirContactPoint| e@) =~= dv0.push(tv));
                }
                if j < n && s[j] == ',' {
                    proof {
                        let rj = s@.skip(j as int);
                        assert(rj[0] == ',');
                        assert(rj.skip(1) =~= s@.skip(j + 1));
                        assert(p_items(scur, pf_contact_point()) == prepend_items(
                            seq![tv],
                            p_items(s@.skip(j + 1), pf_contact_point()),
                        ));
                        lemma_prepend_items_assoc(
                            dv0,
                            seq![tv],
                            p_items(s@.skip(j + 1), pf_contact_point()),
                        );
                        assert(dv0 + seq![tv] =~= dv0.push(tv));
                    }
                    cur = j + 1;
                } else if j < n && s[j] == ']' {
                    proof {
                        let rj = s@.skip(j as int);
                        assert(rj[0] == ']');
                        assert(rj.skip(1) =~= s@.skip(j + 1));
                        assert(p_items(scur, pf_contact_point()) == Some((seq![tv], s@.skip(j + 1))));
                        assert(dv0 + seq![tv] =~= dv0.push(tv));
                    }
                    return Some((acc, j + 1));
                } else {
                    proof {
                        let rj = s@.skip(j as int);
                        if rj.len() >= 1 {
                            assert(rj[0] == s@[j as int]);
                        }
                        assert(p_items(scur, pf_contact_point()) is None);
                    }
                    return None;
                }
            },
        }
    }
}


// https://www.hl7.org/fhir/datatypes.html#Address
#[derive(Debug, Clone, PartialEq, Eq)]
pub struct FhirAddress {
    pub address_use: FhirAddressUse,
    pub address_type: FhirAddressType,
    pub text: String,
    pub line: Vec<String>,
    pub city: Option<String>,
    pub district: Option<String>,
    pub state: Option<String>,
    pub postal_code: Option<String>,
    pub country: Option<String>,
    pub period: Option<FhirPeriod>,
}

#[verifier::ext_equal]
pub ghost struct AddressV {
    pub address_use: FhirAddressUse,
    pub address_type: FhirAddressType,
    pub text: Seq<char>,
    pub line: Seq<Seq<char>>,
    pub city: Option<Seq<char>>,
    pub district: Option<Seq<char>>,
    pub state: Option<Seq<char>>,
    pub postal_code: Option<Seq<char>>,
    pub country: Option<Seq<char>>,
    pub period: Option<PeriodV>,
}

impl View for FhirAddress {
    type V = AddressV;

    open spec fn view(&self) -> AddressV {
        AddressV {
            address_use: self.address_use,
            address_type: self.address_type,
            text: self.text@,
            line: self.line.deep_view(),
            city: opt_str_view(self.city),
            district: opt_str_view(self.district),
            state: opt_str_view(self.state),
            postal_code: opt_str_view(self.postal_code),
            country: opt_str_view(self.country),
            period: opt_period_view(self.period),
        }
    }
}

pub open spec fn address_json(v: AddressV) -> Seq<char> {
    "{\"use\":"@ + jstr(address_use_code(v.address_use)) + ",\"type\":"@ + jstr(address_type_code(v.address_type)) + ",\"text\":"@ + jstr(v.text) + ",\"line\":"@ + jarr(v.line, jstr_f()) + ",\"city\":"@ + jopt(v.city, jstr_f()) + ",\"district\":"@ + jopt(v.district, jstr_f()) + ",\"state\":"@ + jopt(v.state, jstr_f()) + ",\"postalCode\":"@ + jopt(v.postal_code, jstr_f()) + ",\"country\":"@ + jopt(v.country, jstr_f()) + ",\"period\":"@ + jopt(v.period, f_period()) + "}"@
}

pub open spec fn f_address() -> spec_fn(AddressV) -> Seq<char> {
    |v: AddressV| address_json(v)
}

pub open spec fn pf_address() -> spec_fn(Seq<char>) -> Option<(AddressV, Seq<char>)> {
    |s: Seq<char>| p_address(s)
}

pub open spec fn p_address(s: Seq<char>) -> Option<(AddressV, Seq<char>)> {
    match p_lit(s, "{\"use\":"@) {
        Some(s1) => match p_address_use(s1) {
            Some((x_address_use, s2)) => match p_lit(s2, ",\"type\":"@) {
                Some(s3) => match p_address_type(s3) {
                    Some((x_address_type, s4)) => match p_lit(s4, ",\"text\":"@) {
                        Some(s5) => match p_jstr(s5) {
                            Some((x_text, s6)) => match p_lit(s6, ",\"line\":"@) {
                                Some(s7) => match p_arr(s7, pf_jstr()) {
                                    Some((x_line, s8)) => match p_lit(s8, ",\"city\":"@) {
                                        Some(s9) => match p_opt(s9, pf_jstr()) {
                                            Some((x_city, s10)) => match p_lit(s10, ",\"district\":"@) {
                                                Some(s11) => match p_opt(s11, pf_jstr()) {
                                                    Some((x_district, s12)) => match p_lit(s12, ",\"state\":"@) {
                                                        Some(s13) => match p_opt(s13, pf_jstr()) {
                                                            Some((x_state, s14)) => match p_lit(s14, ",\"postalCode\":"@) {
                                                                Some(s15) => match p_opt(s15, pf_jstr()) {
                                                                    Some((x_postal_code, s16)) => match p_lit(s16, ",\"country\":"@) {
                                                                        Some(s17) => match p_opt(s17, pf_jstr()) {
                                                                            Some((x_country, s18)) => match p_lit(s18, ",\"period\":"@) {
                                                                                Some(s19) => match p_opt(s19, pf_period()) {
                                                                                    Some((x_period, s20)) => match p_lit(s20, "}"@) {
                                                                                        Some(s21) => Some((
                                                                                            AddressV {
                                                                                                address_use: x_address_use,
                                                                                                address_type: x_address_type,
                                                                                                text: x_text,
                                                                                                line: x_line,
                                                                                                city: x_city,
                                                                                                district: x_district,
                                                                                                state: x_state,
                                                                                                postal_code: x_postal_code,
                                                                                                country: x_country,
                                                                                                period: x_period,
                                                                                            },
                                                                                            s21,
                                                                                        )),
                                                                                        None => None,
                                                                                    },
                                                                                    None => None,
                                                                                },
                                                                                None => None,
                                                                            },
                                                                            None => None,
                                                                        },
                                                                        None => None,
                                                                    },
                                                                    None => None,
                                                                },
                                                                None => None,
                                                            },
                                                            None => None,
                                                        },
                                                        None => None,
                                                    },
                                                    None => None,
                                                },
                                                None => None,
                                            },
                                            None => None,
                                        },
                                        None => None,
                                    },
                                    None => None,
                                },
                                None => None,
                            },
                            None => None,
                        },
                        None => None,
                    },
                    None => None,
                },
                None => None,
            },
            None => None,
        },
        None => None,
    }
}

pub proof fn lemma_p_address(v: AddressV, rest: Seq<char>)
    ensures
        p_address(address_json(v) + rest) == Some((v, rest)),
{
    let c1 = jstr(address_use_code(v.address_use));
    let c2 = jstr(address_type_code(v.address_type));
    let c3 = jstr(v.text);
    let c4 = jarr(v.line, jstr_f());
    let c5 = jopt(v.city, jstr_f());
    let c6 = jopt(v.district, jstr_f());
    let c7 = jopt(v.state, jstr_f());
    let c8 = jopt(v.postal_code, jstr_f());
    let c9 = jopt(v.country, jstr_f());
    let c10 = jopt(v.period, f_period());
    let t20 = "}"@ + rest;
    let t19 = c10 + t20;
    let t18 = ",\"period\":"@ + t19;
    let t17 = c9 + t18;
    let t16 = ",\"country\":"@ + t17;
    let t15 = c8 + t16;
    let t14 = ",\"postalCode\":"@ + t15;
    let t13 = c7 + t14;
    let t12 = ",\"state\":"@ + t13;
    let t11 = c6 + t12;
    let t10 = ",\"district\":"@ + t11;
    let t9 = c5 + t10;
    let t8 = ",\"city\":"@ + t9;
    let t7 = c4 + t8;
    let t6 = ",\"line\":"@ + t7;
    let t5 = c3 + t6;
    let t4 = ",\"text\":"@ + t5;
    let t3 = c2 + t4;
    let t2 = ",\"type\":"@ + t3;
    let t1 = c1 + t2;
    let t0 = "{\"use\":"@ + t1;
    vstd::seq_lib::lemma_concat_associative("{\"use\":"@ + c1 + ",\"type\":"@ + c2 + ",\"text\":"@ + c3 + ",\"line\":"@ + c4 + ",\"city\":"@ + c5 + ",\"district\":"@ + c6 + ",\"state\":"@ + c7 + ",\"postalCode\":"@ + c8 + ",\"country\":"@ + c9 + ",\"period\":"@ + c10, "}"@, rest);
    vstd::seq_lib::lemma_concat_associative("{\"use\":"@ + c1 + ",\"type\":"@ + c2 + ",\"text\":"@ + c3 + ",\"line\":"@ + c4 + ",\"city\":"@ + c5 + ",\"district\":"@ + c6 + ",\"state\":"@ + c7 + ",\"postalCode\":"@ + c8 + ",\"country\":"@ + c9 + ",\"period\":"@, c10, t20);
    vstd::seq_lib::lemma_concat_associative("{\"use\":"@ + c1 + ",\"type\":"@ + c2 + ",\"text\":"@ + c3 + ",\"line\":"@ + c4 + ",\"city\":"@ + c5 + ",\"district\":"@ + c6 + ",\"state\":"@ + c7 + ",\"postalCode\":"@ + c8 + ",\"country\":"@ + c9, ",\"period\":"@, t19);
    vstd::seq_lib::lemma_concat_associative("{\"use\":"@ + c1 + ",\"type\":"@ + c2 + ",\"text\":"@ + c3 + ",\"line\":"@ + c4 + ",\"city\":"@ + c5 + ",\"district\":"@ + c6 + ",\"state\":"@ + c7 + ",\"postalCode\":"@ + c8 + ",\"country\":"@, c9, t18);
    vstd::seq_lib::lemma_concat_associative("{\"use\":"@ + c1 + ",\"type\":"@ + c2 + ",\"text\":"@ + c3 + ",\"line\":"@ + c4 + ",\"city\":"@ + c5 + ",\"district\":"@ + c6 + ",\"state\":"@ + c7 + ",\"postalCode\":"@ + c8, ",\"country\":"@, t17);
    vstd::seq_lib::lemma_concat_associative("{\"use\":"@ + c1 + ",\"type\":"@ + c2 + ",\"text\":"@ + c3 + ",\"line\":"@ + c4 + ",\"city\":"@ + c5 + ",\"district\":"@ + c6 + ",\"state\":"@ + c7 + ",\"postalCode\":"@, c8, t16);
    vstd::seq_lib::lemma_concat_associative("{\"use\":"@ + c1 + ",\"type\":"@ + c2 + ",\"text\":"@ + c3 + ",\"line\":"@ + c4 + ",\"city\":"@ + c5 + ",\"district\":"@ + c6 + ",\"state\":"@ + c7, ",\"postalCode\":"@, t15);
    vstd::seq_lib::lemma_concat_associative("{\"use\":"@ + c1 + ",\"type\":"@ + c2 + ",\"text\":"@ + c3 + ",\"line\":"@ + c4 + ",\"city\":"@ + c5 + ",\"district\":"@ + c6 + ",\"state\":"@, c7, t14);
    vstd::seq_lib::lemma_concat_associative("{\"use\":"@ + c1 + ",\"type\":"@ + c2 + ",\"text\":"@ + c3 + ",\"line\":"@ + c4 + ",\"city\":"@ + c5 + ",\"district\":"@ + c6, ",\"state\":"@, t13);
    vstd::seq_lib::lemma_concat_associative("{\"use\":"@ + c1 + ",\"type\":"@ + c2 + ",\"text\":"@ + c3 + ",\"line\":"@ + c4 + ",\"city\":"@ + c5 + ",\"district\":"@, c6, t12);
    vstd::seq_lib::lemma_concat_associative("{\"use\":"@ + c1 + ",\"type\":"@ + c2 + ",\"text\":"@ + c3 + ",\"line\":"@ + c4 + ",\"city\":"@ + c5, ",\"district\":"@, t11);
    vstd::seq_lib::lemma_concat_associative("{\"use\":"@ + c1 + ",\"type\":"@ + c2 + ",\"text\":"@ + c3 + ",\"line\":"@ + c4 + ",\"city\":"@, c5, t10);
    vstd::seq_lib::lemma_concat_associative("{\"use\":"@ + c1 + ",\"type\":"@ + c2 + ",\"text\":"@ + c3 + ",\"line\":"@ + c4, ",\"city\":"@, t9);
    vstd::seq_lib::lemma_concat_associative("{\"use\":"@ + c1 + ",\"type\":"@ + c2 + ",\"text\":"@ + c3 + ",\"line\":"@, c4, t8);
    vstd::seq_lib::lemma_concat_associative("{\"use\":"@ + c1 + ",\"type\":"@ + c2 + ",\"text\":"@ + c3, ",\"line\":"@, t7);
    vstd::seq_lib::lemma_concat_associative("{\"use\":"@ + c1 + ",\"type\":"@ + c2 + ",\"text\":"@, c3, t6);
    vstd::seq_lib::lemma_concat_associative("{\"use\":"@ + c1 + ",\"type\":"@ + c2, ",\"text\":"@, t5);
    vstd::seq_lib::lemma_concat_associative("{\"use\":"@ + c1 + ",\"type\":"@, c2, t4);
    vstd::seq_lib::lemma_concat_associative("{\"use\":"@ + c1, ",\"type\":"@, t3);
    vstd::seq_lib::lemma_concat_associative("{\"use\":"@, c1, t2);
    assert(address_json(v) + rest == t0);
    lemma_p_lit("{\"use\":"@, t1);
    lemma_address_use_roundtrip(v.address_use, t2);
    lemma_p_lit(",\"type\":"@, t3);
    lemma_address_type_roundtrip(v.address_type, t4);
    lemma_p_lit(",\"text\":"@, t5);
    lemma_p_jstr(v.text, t6);
    lemma_p_lit(",\"line\":"@, t7);
    lemma_p_arr_jstr(v.line, t8);
    lemma_p_lit(",\"city\":"@, t9);
    lemma_p_opt_jstr(v.city, t10);
    lemma_p_lit(",\"district\":"@, t11);
    lemma_p_opt_jstr(v.district, t12);
    lemma_p_lit(",\"state\":"@, t13);
    lemma_p_opt_jstr(v.state, t14);
    lemma_p_lit(",\"postalCode\":"@, t15);
    lemma_p_opt_jstr(v.postal_code, t16);
    lemma_p_lit(",\"country\":"@, t17);
    lemma_p_opt_jstr(v.country, t18);
    lemma_p_lit(",\"period\":"@, t19);
    lemma_p_opt_period(v.period, t20);
    lemma_p_lit("}"@, rest);
    assert(p_address(t0) == Some((AddressV { address_use: v.address_use, address_type: v.address_type, text: v.text, line: v.line, city: v.city, district: v.district, state: v.state, postal_code: v.postal_code, country: v.country, period: v.period }, rest)));
    assert(AddressV { address_use: v.address_use, address_type: v.address_type, text: v.text, line: v.line, city: v.city, district: v.district, state: v.state, postal_code: v.postal_code, country: v.country, period: v.period } =~= v);
}

pub fn write_address(out: &mut Vec<char>, x: &FhirAddress) -> (u: ())
    ensures
        final(out)@ == old(out)@ + address_json(x@),
{
    push_lit(out, "{\"use\":");
    write_jstr(out, x.address_use.code_str());
    push_lit(out, ",\"type\":");
    write_jstr(out, x.address_type.code_str());
    push_lit(out, ",\"text\":");
    write_jstr(out, self_str(&x.text));
    push_lit(out, ",\"line\":");
    write_str_arr(out, &x.line);
    push_lit(out, ",\"city\":");
    write_opt_jstr(out, &x.city);
    push_lit(out, ",\"district\":");
    write_opt_jstr(out, &x.district);
    push_lit(out, ",\"state\":");
    write_opt_jstr(out, &x.state);
    push_lit(out, ",\"postalCode\":");
    write_opt_jstr(out, &x.postal_code);
    push_lit(out, ",\"country\":");
    write_opt_jstr(out, &x.country);
    push_lit(out, ",\"period\":");
    write_opt_period(out, &x.period);
    push_lit(out, "}");
    proof {
        vstd::seq_lib::lemma_concat_associative(old(out)@, "{\"use\":"@, jstr(address_use_code(x@.address_use)));
        vstd::seq_lib::lemma_concat_associative(old(out)@, "{\"use\":"@ + jstr(address_use_code(x@.address_use)), ",\"type\":"@);
        vstd::seq_lib::lemma_concat_associative(old(out)@, "{\"use\":"@ + jstr(address_use_code(x@.address_use)) + ",\"type\":"@, jstr(address_type_code(x@.address_type)));
        vstd::seq_lib::lemma_concat_associative(old(out)@, "{\"use\":"@ + jstr(address_use_code(x@.address_use)) + ",\"type\":"@ + jstr(address_type_code(x@.address_type)), ",\"text\":"@);
        vstd::seq_lib::lemma_concat_associative(old(out)@, "{\"use\":"@ + jstr(address_use_code(x@.address_use)) + ",\"type\":"@ + jstr(address_type_code(x@.address_type)) + ",\"text\":"@, jstr(x@.text));
        vstd::seq_lib::lemma_concat_associative(old(out)@, "{\"use\":"@ + jstr(address_use_code(x@.address_use)) + ",\"type\":"@ + jstr(address_type_code(x@.address_type)) + ",\"text\":"@ + jstr(x@.text), ",\"line\":"@);
        vstd::seq_lib::lemma_concat_associative(old(out)@, "{\"use\":"@ + jstr(address_use_code(x@.address_use)) + ",\"type\":"@ + jstr(address_type_code(x@.address_type)) + ",\"text\":"@ + jstr(x@.text) + ",\"line\":"@, jarr(x@.line, jstr_f()));
        vstd::seq_lib::lemma_concat_associative(old(out)@, "{\"use\":"@ + jstr(address_use_code(x@.address_use)) + ",\"type\":"@ + jstr(address_type_code(x@.address_type)) + ",\"text\":"@ + jstr(x@.text) + ",\"line\":"@ + jarr(x@.line, jstr_f()), ",\"city\":"@);
        vstd::seq_lib::lemma_concat_associative(old(out)@, "{\"use\":"@ + jstr(address_use_code(x@.address_use)) + ",\"type\":"@ + jstr(address_type_code(x@.address_type)) + ",\"text\":"@ + jstr(x@.text) + ",\"line\":"@ + jarr(x@.line, jstr_f()) + ",\"city\":"@, jopt(x@.city, jstr_f()));
        vstd::seq_lib::lemma_concat_associative(old(out)@, "{\"use\":"@ + jstr(address_use_code(x@.address_use)) + ",\"type\":"@ + jstr(address_type_code(x@.address_type)) + ",\"text\":"@ + jstr(x@.text) + ",\"line\":"@ + jarr(x@.line, jstr_f()) + ",\"city\":"@ + jopt(x@.city, jstr_f()), ",\"district\":"@);
        vstd::seq_lib::lemma_concat_associative(old(out)@, "{\"use\":"@ + jstr(address_use_code(x@.address_use)) + ",\"type\":"@ + jstr(address_type_code(x@.address_type)) + ",\"text\":"@ + jstr(x@.text) + ",\"line\":"@ + jarr(x@.line, jstr_f()) + ",\"city\":"@ + jopt(x@.city, jstr_f()) + ",\"district\":"@, jopt(x@.district, jstr_f()));
        vstd::seq_lib::lemma_concat_associative(old(out)@, "{\"use\":"@ + jstr(address_use_code(x@.address_use)) + ",\"type\":"@ + jstr(address_type_code(x@.address_type)) + ",\"text\":"@ + jstr(x@.text) + ",\"line\":"@ + jarr(x@.line, jstr_f()) + ",\"city\":"@ + jopt(x@.city, jstr_f()) + ",\"district\":"@ + jopt(x@.district, jstr_f()), ",\"state\":"@);
        vstd::seq_lib::lemma_concat_associative(old(out)@, "{\"use\":"@ + jstr(address_use_code(x@.address_use)) + ",\"type\":"@ + jstr(address_type_code(x@.address_type)) + ",\"text\":"@ + jstr(x@.text) + ",\"line\":"@ + jarr(x@.line, jstr_f()) + ",\"city\":"@ + jopt(x@.city, jstr_f()) + ",\"district\":"@ + jopt(x@.district, jstr_f()) + ",\"state\":"@, jopt(x@.state, jstr_f()));
        vstd::seq_lib::lemma_concat_associative(old(out)@, "{\"use\":"@ + jstr(address_use_code(x@.address_use)) + ",\"type\":"@ + jstr(address_type_code(x@.address_type)) + ",\"text\":"@ + jstr(x@.text) + ",\"line\":"@ + jarr(x@.line, jstr_f()) + ",\"city\":"@ + jopt(x@.city, jstr_f()) + ",\"district\":"@ + jopt(x@.district, jstr_f()) + ",\"state\":"@ + jopt(x@.state, jstr_f()), ",\"postalCode\":"@);
        vstd::seq_lib::lemma_concat_associative(old(out)@, "{\"use\":"@ + jstr(address_use_code(x@.address_use)) + ",\"type\":"@ + jstr(address_type_code(x@.address_type)) + ",\"text\":"@ + jstr(x@.text) + ",\"line\":"@ + jarr(x@.line, jstr_f()) + ",\"city\":"@ + jopt(x@.city, jstr_f()) + ",\"district\":"@ + jopt(x@.district, jstr_f()) + ",\"state\":"@ + jopt(x@.state, jstr_f()) + ",\"postalCode\":"@, jopt(x@.postal_code, jstr_f()));
        vstd::seq_lib::lemma_concat_associative(old(out)@, "{\"use\":"@ + jstr(address_use_code(x@.address_use)) + ",\"type\":"@ + jstr(address_type_code(x@.address_type)) + ",\"text\":"@ + jstr(x@.text) + ",\"line\":"@ + jarr(x@.line, jstr_f()) + ",\"city\":"@ + jopt(x@.city, jstr_f()) + ",\"district\":"@ + jopt(x@.district, jstr_f()) + ",\"state\":"@ + jopt(x@.state, jstr_f()) + ",\"postalCode\":"@ + jopt(x@.postal_code, jstr_f()), ",\"country\":"@);
        vstd::seq_lib::lemma_concat_associative(old(out)@, "{\"use\":"@ + jstr(address_use_code(x@.address_use)) + ",\"type\":"@ + jstr(address_type_code(x@.address_type)) + ",\"text\":"@ + jstr(x@.text) + ",\"line\":"@ + jarr(x@.line, jstr_f()) + ",\"city\":"@ + jopt(x@.city, jstr_f()) + ",\"district\":"@ + jopt(x@.district, jstr_f()) + ",\"state\":"@ + jopt(x@.state, jstr_f()) + ",\"postalCode\":"@ + jopt(x@.postal_code, jstr_f()) + ",\"country\":"@, jopt(x@.country, jstr_f()));
        vstd::seq_lib::lemma_concat_associative(old(out)@, "{\"use\":"@ + jstr(address_use_code(x@.address_use)) + ",\"type\":"@ + jstr(address_type_code(x@.address_type)) + ",\"text\":"@ + jstr(x@.text) + ",\"line\":"@ + jarr(x@.line, jstr_f()) + ",\"city\":"@ + jopt(x@.city, jstr_f()) + ",\"district\":"@ + jopt(x@.district, jstr_f()) + ",\"state\":"@ + jopt(x@.state, jstr_f()) + ",\"postalCode\":"@ + jopt(x@.postal_code, jstr_f()) + ",\"country\":"@ + jopt(x@.country, jstr_f()), ",\"period\":"@);
        vstd::seq_lib::lemma_concat_associative(old(out)@, "{\"use\":"@ + jstr(address_use_code(x@.address_use)) + ",\"type\":"@ + jstr(address_type_code(x@.address_type)) + ",\"text\":"@ + jstr(x@.text) + ",\"line\":"@ + jarr(x@.line, jstr_f()) + ",\"city\":"@ + jopt(x@.city, jstr_f()) + ",\"district\":"@ + jopt(x@.district, jstr_f()) + ",\"state\":"@ + jopt(x@.state, jstr_f()) + ",\"postalCode\":"@ + jopt(x@.postal_code, jstr_f()) + ",\"country\":"@ + jopt(x@.country, jstr_f()) + ",\"period\":"@, jopt(x@.period, f_period()));
        vstd::seq_lib::lemma_concat_associative(old(out)@, "{\"use\":"@ + jstr(address_use_code(x@.address_use)) + ",\"type\":"@ + jstr(address_type_code(x@.address_type)) + ",\"text\":"@ + jstr(x@.text) + ",\"line\":"@ + jarr(x@.line, jstr_f()) + ",\"city\":"@ + jopt(x@.city, jstr_f()) + ",\"district\":"@ + jopt(x@.district, jstr_f()) + ",\"state\":"@ + jopt(x@.state, jstr_f()) + ",\"postalCode\":"@ + jopt(x@.postal_code, jstr_f()) + ",\"country\":"@ + jopt(x@.country, jstr_f()) + ",\"period\":"@ + jopt(x@.period, f_period()), "}"@);
        assert(out@ == old(out)@ + address_json(x@));
    }
}

pub fn parse_address(s: &Vec<char>, i: usize) -> (r: Option<(FhirAddress, usize)>)
    requires
        i <= s@.len(),
    ensures
        match r {
            Some(p) => p.1 <= s@.len() && p_address(s@.skip(i as int)) == Some(
                (p.0@, s@.skip(p.1 as int)),
            ),
            None => p_address(s@.skip(i as int)) is None,
        },
{
    let j = match expect_lit(s, i, "{\"use\":") {
        Some(j) => j,
        None => {
            return None;
        },
    };
    let (x_address_use, j) = match parse_address_use(s, j) {
        Some(x) => x,
        None => {
            return None;
        },
    };
    let j = match expect_lit(s, j, ",\"type\":") {
        Some(j) => j,
        None => {
            return None;
        },
    };
    let (x_address_type, j) = match parse_address_type(s, j) {
        Some(x) => x,
        None => {
            return None;
        },
    };
    let j = match expect_lit(s, j, ",\"text\":") {
        Some(j) => j,
        None => {
            return None;
        },
    };
    let (x_text, j) = match parse_jstr(s, j) {
        Some(x) => x,
        None => {
            return None;
        },
    };
    let j = match expect_lit(s, j, ",\"line\":") {
        Some(j) => j,
        None => {
            return None;
        },
    };
    let (x_line, j) = match parse_str_arr(s, j) {
        Some(x) => x,
        None => {
            return None;
        },
    };
    let j = match expect_lit(s, j, ",\"city\":") {
        Some(j) => j,
        None => {
            return None;
        },
    };
    let (x_city, j) = match parse_opt_jstr(s, j) {
        Some(x) => x,
        None => {
            return None;
        },
    };
    let j = match expect_lit(s, j, ",\"district\":") {
        Some(j) => j,
        None => {
            return None;
        },
    };
    let (x_district, j) = match parse_opt_jstr(s, j) {
        Some(x) => x,
        None => {
            return None;
        },
    };
    let j = match expect_lit(s, j, ",\"state\":") {
        Some(j) => j,
        None => {
            return None;
        },
    };
    let (x_state, j) = match parse_opt_jstr(s, j) {
        Some(x) => x,
        None => {
            return None;
        },
    };
    let j = match expect_lit(s, j, ",\"postalCode\":") {
        Some(j) => j,
        None => {
            return None;
        },
    };
    let (x_postal_code, j) = match parse_opt_jstr(s, j) {
        Some(x) => x,
        None => {
            return None;
        },
    };
    let j = match expect_lit(s, j, ",\"country\":") {
        Some(j) => j,
        None => {
            return None;
        },
    };
    let (x_country, j) = match parse_opt_jstr(s, j) {
        Some(x) => x,
        None => {
            return None;
        },
    };
    let j = match expect_lit(s, j, ",\"period\":") {
        Some(j) => j,
        None => {
            return None;
        },
    };
    let (x_period, j) = match parse_opt_period(s, j) {
        Some(x) => x,
        None => {
            return None;
        },
    };
    let j = match expect_lit(s, j, "}") {
        Some(j) => j,
        None => {
            return None;
        },
    };
    let ret = FhirAddress {
        address_use: x_address_use,
        address_type: x_address_type,
        text: chars_to_string(x_text),
        line: x_line,
        city: x_city,
        district: x_district,
        state: x_state,
        postal_code: x_postal_code,
        country: x_country,
        period: x_period,
    };
    proof {
        assert(ret@ =~= AddressV {
            address_use: x_address_use,
            address_type: x_address_type,
            text: x_text@,
            line: x_line.deep_view(),
            city: opt_str_view(x_city),
            district: opt_str_view(x_district),
            state: opt_str_view(x_state),
            postal_code: opt_str_view(x_postal_code),
            country: opt_str_view(x_country),
            period: opt_period_view(x_period),
        });
    }
    Some((ret, j))
}

// ---------------------------------------------------------------------------
// duplication: identical copies, field by field, with the view preserved
// ---------------------------------------------------------------------------

pub fn dup_opt_string(o: &Option<String>) -> (r: Option<String>)
    ensures
        opt_str_view(r) == opt_str_view(*o),
{
    match o {
        None => None,
        Some(t) => Some(t.clone()),
    }
}

pub fn dup_strings(v: &Vec<String>) -> (r: Vec<String>)
    ensures
        r.deep_view() == v.deep_view(),
{
    let mut r: Vec<String> = Vec::new();
    let mut k: usize = 0;
    while k < v.len()
        invariant
            k <= v.len(),
            r@.len() == k,
            forall|j: int| 0 <= j < k ==> r@[j]@ == v@[j]@,
        decreases v.len() - k,
    {
        r.push(v[k].clone());
        k += 1;
    }
    proof {
        assert(r.deep_view() =~= v.deep_view());
    }
    r
}

pub fn dup_instant(x: &FhirInstant) -> (r: FhirInstant)
    ensures
        r@ == x@,
{
    FhirInstant(x.0.clone())
}

pub fn dup_period(p: &FhirPeriod) -> (r: FhirPeriod)
    ensures
        r@ == p@,
{
    let r = FhirPeriod { start: FhirDateTime(p.start.0.clone()), end: FhirDateTime(p.end.0.clone()) };
    proof {
        assert(r@ =~= p@);
    }
    r
}

pub fn dup_opt_period(o: &Option<FhirPeriod>) -> (r: Option<FhirPeriod>)
    ensures
        opt_period_view(r) == opt_period_view(*o),
{
    match o {
        None => None,
        Some(p) => Some(dup_period(p)),
    }
}

pub fn dup_human_name(h: &FhirHumanName) -> (r: FhirHumanName)
    ensures
        r@ == h@,
{
    let r = FhirHumanName {
        name_use: h.name_use,
        text: h.text.clone(),
        family: h.family.clone(),
        given: dup_strings(&h.given),
        prefix: dup_strings(&h.prefix),
        suffix: dup_strings(&h.suffix),
        period: dup_opt_period(&h.period),
    };
    proof {
        assert(r@ =~= h@);
    }
    r
}

pub fn dup_contact_point(c: &FhirContactPoint) -> (r: FhirContactPoint)
    ensures
        r@ == c@,
{
    let r = FhirContactPoint {
        system: c.system,
        value: c.value.clone(),
        contact_use: c.contact_use,
        period: dup_opt_period(&c.period),
        rank: c.rank,
    };
    proof {
        assert(r@ =~= c@);
    }
    r
}

pub fn dup_contact_points(v: &Vec<FhirContactPoint>) -> (r: Vec<FhirContactPoint>)
    ensures
        r@.map_values(|e: FhirContactPoint| e@) == v@.map_values(|e: FhirContactPoint| e@),
{
    let mut r: Vec<FhirContactPoint> = Vec::new();
    let mut k: usize = 0;
    while k < v.len()
        invariant
            k <= v.len(),
            r@.len() == k,
            forall|j: int| 0 <= j < k ==> r@[j]@ == v@[j]@,
        decreases v.len() - k,
    {
        r.push(dup_contact_point(&v[k]));
        k += 1;
    }
    proof {
        assert(r@.map_values(|e: FhirContactPoint| e@) =~= v@.map_values(
            |e: FhirContactPoint| e@,
        ));
    }
    r
}

pub fn dup_address(a: &FhirAddress) -> (r: FhirAddress)
    ensures
        r@ == a@,
{
    let r = FhirAddress {
        address_use: a.address_use,
        address_type: a.address_type,
        text: a.text.clone(),
        line: dup_strings(&a.line),
        city: dup_opt_string(&a.city),
        district: dup_opt_string(&a.district),
        state: dup_opt_string(&a.state),
        postal_code: dup_opt_string(&a.postal_code),
        country: dup_opt_string(&a.country),
        period: dup_opt_period(&a.period),
    };
    proof {
        assert(r@ =~= a@);
    }
    r
}

} // verus!
