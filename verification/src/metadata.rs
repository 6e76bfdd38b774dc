//! Metadata wrappers: the extended contact detail attached to an
//! organization, with its canonical JSON codec and round-trip proof.

use vstd::prelude::*;
use crate::jsontext::{jstr, write_jstr, p_lit, lemma_p_lit, expect_lit, push_lit, jopt, p_opt,
    lemma_p_opt_none, lemma_p_opt_some, jarr, jitems, p_arr, p_items, prepend_items,
    lemma_prepend_items_assoc, lemma_jitems_push, jstr_f, pf_jstr, lemma_p_arr,
    lemma_p_items_step, lemma_p_items_none};
use crate::jsonval::chars_to_string;
use crate::valuesets::{FhirContactEntityType, entity_type_code, p_entity_type, parse_entity_type,
    lemma_entity_type_roundtrip};
use crate::datatypes::{FhirContactPoint, ContactPointV, f_contact_point, pf_contact_point,
    write_contact_point_arr, parse_contact_point_arr, lemma_p_arr_contact_point, FhirAddress,
    AddressV, address_json, f_address, pf_address, lemma_p_address, write_address, parse_address,
    FhirPeriod, PeriodV, f_period, pf_period, opt_period_view, lemma_p_opt_period,
    write_opt_period, parse_opt_period, opt_str_view, lemma_p_opt_jstr, write_opt_jstr,
    parse_opt_jstr};

verus! {


pub open spec fn opt_address_view(o: Option<FhirAddress>) -> Option<AddressV> {
    match o {
        None => None,
        Some(x) => Some(x@),
    }
}

pub proof fn lemma_p_opt_address(o: Option<AddressV>, rest: Seq<char>)
    ensures
        p_opt(jopt(o, f_address()) + rest, pf_address()) == Some((o, rest)),
{
    match o {
        None => {
            lemma_p_opt_none(rest, pf_address());
        },
        Some(x) => {
            lemma_p_address(x, rest);
            reveal_strlit("{\"use\":");
            assert(address_json(x)[0] == "{\"use\":"@[0]);
            lemma_p_opt_some(x, rest, f_address(), pf_address());
        },
    }
}

pub fn write_opt_address(out: &mut Vec<char>, o: &Option<FhirAddress>) -> (u: ())
    ensures
        final(out)@ == old(out)@ + jopt(opt_address_view(*o), f_address()),
{
    match o {
        None => {
            push_lit(out, "null");
        },
        Some(x) => {
            write_address(out, x);
        },
    }
}

pub fn parse_opt_address(s: &Vec<char>, i: usize) -> (r: Option<(Option<FhirAddress>, usize)>)
    requires
        i <= s@.len(),
    ensures
        match r {
            Some(p) => p.1 <= s@.len() && p_opt(s@.skip(i as int), pf_address()) == Some(
                (opt_address_view(p.0), s@.skip(p.1 as int)),
            ),
            None => p_opt(s@.skip(i as int), pf_address()) is None,
        },
{
    proof {
        reveal_strlit("null");
    }
    match expect_lit(s, i, "null") {
        Some(j) => Some((None, j)),
        None => match parse_address(s, i) {
            Some((x, j)) => Some((Some(x), j)),
            None => None,
        },
    }
}

// https://www.hl7.org/fhir/metadatatypes.html#ExtendedContactDetail
#[derive(Debug, Clone, PartialEq, Eq)]
pub struct FhirExtendedContactDetail {
    pub purpose: FhirContactEntityType,
    pub name: Option<String>,
    pub telecom: Vec<FhirContactPoint>,
    pub address: Option<FhirAddress>,
    pub period: Option<FhirPeriod>,
}

#[verifier::ext_equal]
pub ghost struct EcdV {
    pub purpose: FhirContactEntityType,
    pub name: Option<Seq<char>>,
    pub telecom: Seq<ContactPointV>,
    pub address: Option<AddressV>,
    pub period: Option<PeriodV>,
}

impl View for FhirExtendedContactDetail {
    type V = EcdV;

    open spec fn view(&self) -> EcdV {
        EcdV {
            purpose: self.purpose,
            name: opt_str_view(self.name),
            telecom: self.telecom@.map_values(|e: FhirContactPoint| e@),
            address: opt_address_view(self.address),
            period: opt_period_view(self.period),
        }
    }
}

pub open spec fn ecd_json(v: EcdV) -> Seq<char> {
    "{\"purpose\":"@ + jstr(entity_type_code(v.purpose)) + ",\"name\":"@ + jopt(v.name, jstr_f()) + ",\"telecom\":"@ + jarr(v.telecom, f_contact_point()) + ",\"address\":"@ + jopt(v.address, f_address()) + ",\"period\":"@ + jopt(v.period, f_period()) + "}"@
}

pub open spec fn f_ecd() -> spec_fn(EcdV) -> Seq<char> {
    |v: EcdV| ecd_json(v)
}

pub open spec fn pf_ecd() -> spec_fn(Seq<char>) -> Option<(EcdV, Seq<char>)> {
    |s: Seq<char>| p_ecd(s)
}

#[verifier::opaque]
pub open spec fn p_ecd(s: Seq<char>) -> Option<(EcdV, Seq<char>)> {
    match p_lit(s, "{\"purpose\":"@) {
        Some(s1) => match p_entity_type(s1) {
            Some((x_purpose, s2)) => match p_lit(s2, ",\"name\":"@) {
                Some(s3) => match p_opt(s3, pf_jstr()) {
                    Some((x_name, s4)) => match p_lit(s4, ",\"telecom\":"@) {
                        Some(s5) => match p_arr(s5, pf_contact_point()) {
                            Some((x_telecom, s6)) => match p_lit(s6, ",\"address\":"@) {
                                Some(s7) => match p_opt(s7, pf_address()) {
                                    Some((x_address, s8)) => match p_lit(s8, ",\"period\":"@) {
                                        Some(s9) => match p_opt(s9, pf_period()) {
                                            Some((x_period, s10)) => match p_lit(s10, "}"@) {
                                                Some(s11) => Some((
                                                    EcdV {
                                                        purpose: x_purpose,
                                                        name: x_name,
                                                        telecom: x_telecom,
                                                        address: x_address,
                                                        period: x_period,
                                                    },
                                                    s11,
                                                )),
                                                None => None,
                                            },
                                            None => None,
                                        },
                                        None => None,
                                    },
                                    None => None,
                                },
                                None => None,
                            },
                            None => None,
                        },
                        None => None,
                    },
                    None => None,
                },
                None => None,
            },
            None => None,
        },
        None => None,
    }
}

pub proof fn lemma_p_ecd(v: EcdV, rest: Seq<char>)
    ensures
        p_ecd(ecd_json(v) + rest) == Some((v, rest)),
{
    reveal(p_ecd);
    let c1 = jstr(entity_type_code(v.purpose));
    let c2 = jopt(v.name, jstr_f());
    let c3 = jarr(v.telecom, f_contact_point());
    let c4 = jopt(v.address, f_address());
    let c5 = jopt(v.period, f_period());
    let t10 = "}"@ + rest;
    let t9 = c5 + t10;
    let t8 = ",\"period\":"@ + t9;
    let t7 = c4 + t8;
    let t6 = ",\"address\":"@ + t7;
    let t5 = c3 + t6;
    let t4 = ",\"telecom\":"@ + t5;
    let t3 = c2 + t4;
    let t2 = ",\"name\":"@ + t3;
    let t1 = c1 + t2;
    let t0 = "{\"purpose\":"@ + t1;
    vstd::seq_lib::lemma_concat_associative("{\"purpose\":"@ + c1 + ",\"name\":"@ + c2 + ",\"telecom\":"@ + c3 + ",\"address\":"@ + c4 + ",\"period\":"@ + c5, "}"@, rest);
    vstd::seq_lib::lemma_concat_associative("{\"purpose\":"@ + c1 + ",\"name\":"@ + c2 + ",\"telecom\":"@ + c3 + ",\"address\":"@ + c4 + ",\"period\":"@, c5, t10);
    vstd::seq_lib::lemma_concat_associative("{\"purpose\":"@ + c1 + ",\"name\":"@ + c2 + ",\"telecom\":"@ + c3 + ",\"address\":"@ + c4, ",\"period\":"@, t9);
    vstd::seq_lib::lemma_concat_associative("{\"purpose\":"@ + c1 + ",\"name\":"@ + c2 + ",\"telecom\":"@ + c3 + ",\"address\":"@, c4, t8);
    vstd::seq_lib::lemma_concat_associative("{\"purpose\":"@ + c1 + ",\"name\":"@ + c2 + ",\"telecom\":"@ + c3, ",\"address\":"@, t7);
    vstd::seq_lib::lemma_concat_associative("{\"purpose\":"@ + c1 + ",\"name\":"@ + c2 + ",\"telecom\":"@, c3, t6);
    vstd::seq_lib::lemma_concat_associative("{\"purpose\":"@ + c1 + ",\"name\":"@ + c2, ",\"telecom\":"@, t5);
    vstd::seq_lib::lemma_concat_associative("{\"purpose\":"@ + c1 + ",\"name\":"@, c2, t4);
    vstd::seq_lib::lemma_concat_associative("{\"purpose\":"@ + c1, ",\"name\":"@, t3);
    vstd::seq_lib::lemma_concat_associative("{\"purpose\":"@, c1, t2);
    assert(ecd_json(v) + rest == t0);
    lemma_p_lit("{\"purpose\":"@, t1);
    lemma_entity_type_roundtrip(v.purpose, t2);
    lemma_p_lit(",\"name\":"@, t3);
    lemma_p_opt_jstr(v.name, t4);
    lemma_p_lit(",\"telecom\":"@, t5);
    lemma_p_arr_contact_point(v.telecom, t6);
    lemma_p_lit(",\"address\":"@, t7);
    lemma_p_opt_address(v.address, t8);
    lemma_p_lit(",\"period\":"@, t9);
    lemma_p_opt_period(v.period, t10);
    lemma_p_lit("}"@, rest);
    assert(p_ecd(t0) == Some((EcdV { purpose: v.purpose, name: v.name, telecom: v.telecom, address: v.address, period: v.period }, rest)));
    assert(EcdV { purpose: v.purpose, name: v.name, telecom: v.telecom, address: v.address, period: v.period } =~= v);
}

pub fn write_ecd(out: &mut Vec<char>, x: &FhirExtendedContactDetail) -> (u: ())
    ensures
        final(out)@ == old(out)@ + ecd_json(x@),
{
    push_lit(out, "{\"purpose\":");
    write_jstr(out, x.purpose.code_str());
    push_lit(out, ",\"name\":");
    write_opt_jstr(out, &x.name);
    push_lit(out, ",\"telecom\":");
    write_contact_point_arr(out, &x.telecom);
    push_lit(out, ",\"address\":");
    write_opt_address(out, &x.address);
    push_lit(out, ",\"period\":");
    write_opt_period(out, &x.period);
    push_lit(out, "}");
    proof {
        vstd::seq_lib::lemma_concat_associative(old(out)@, "{\"purpose\":"@, jstr(entity_type_code(x@.purpose)));
        vstd::seq_lib::lemma_concat_associative(old(out)@, "{\"purpose\":"@ + jstr(entity_type_code(x@.purpose)), ",\"name\":"@);
        vstd::seq_lib::lemma_concat_associative(old(out)@, "{\"purpose\":"@ + jstr(entity_type_code(x@.purpose)) + ",\"name\":"@, jopt(x@.name, jstr_f()));
        vstd::seq_lib::lemma_concat_associative(old(out)@, "{\"purpose\":"@ + jstr(entity_type_code(x@.purpose)) + ",\"name\":"@ + jopt(x@.name, jstr_f()), ",\"telecom\":"@);
        vstd::seq_lib::lemma_concat_associative(old(out)@, "{\"purpose\":"@ + jstr(entity_type_code(x@.purpose)) + ",\"name\":"@ + jopt(x@.name, jstr_f()) + ",\"telecom\":"@, jarr(x@.telecom, f_contact_point()));
        vstd::seq_lib::lemma_concat_associative(old(out)@, "{\"purpose\":"@ + jstr(entity_type_code(x@.purpose)) + ",\"name\":"@ + jopt(x@.name, jstr_f()) + ",\"telecom\":"@ + jarr(x@.telecom, f_contact_point()), ",\"address\":"@);
        vstd::seq_lib::lemma_concat_associative(old(out)@, "{\"purpose\":"@ + jstr(entity_type_code(x@.purpose)) + ",\"name\":"@ + jopt(x@.name, jstr_f()) + ",\"telecom\":"@ + jarr(x@.telecom, f_contact_point()) + ",\"address\":"@, jopt(x@.address, f_address()));
        vstd::seq_lib::lemma_concat_associative(old(out)@, "{\"purpose\":"@ + jstr(entity_type_code(x@.purpose)) + ",\"name\":"@ + jopt(x@.name, jstr_f()) + ",\"telecom\":"@ + jarr(x@.telecom, f_contact_point()) + ",\"address\":"@ + jopt(x@.address, f_address()), ",\"period\":"@);
        vstd::seq_lib::lemma_concat_associative(old(out)@, "{\"purpose\":"@ + jstr(entity_type_code(x@.purpose)) + ",\"name\":"@ + jopt(x@.name, jstr_f()) + ",\"telecom\":"@ + jarr(x@.telecom, f_contact_point()) + ",\"address\":"@ + jopt(x@.address, f_address()) + ",\"period\":"@, jopt(x@.period, f_period()));
        vstd::seq_lib::lemma_concat_associative(old(out)@, "{\"purpose\":"@ + jstr(entity_type_code(x@.purpose)) + ",\"name\":"@ + jopt(x@.name, jstr_f()) + ",\"telecom\":"@ + jarr(x@.telecom, f_contact_point()) + ",\"address\":"@ + jopt(x@.address, f_address()) + ",\"period\":"@ + jopt(x@.period, f_period()), "}"@);
        assert(out@ == old(out)@ + ecd_json(x@));
    }
}

pub fn parse_ecd(s: &Vec<char>, i: usize) -> (r: Option<(FhirExtendedContactDetail, usize)>)
    requires
        i <= s@.len(),
    ensures
        match r {
            Some(p) => p.1 <= s@.len() && p_ecd(s@.skip(i as int)) == Some(
                (p.0@, s@.skip(p.1 as int)),
            ),
            None => p_ecd(s@.skip(i as int)) is None,
        },
{
    proof {
        reveal(p_ecd);
    }
    let j = match expect_lit(s, i, "{\"purpose\":") {
        Some(j) => j,
        None => {
            return None;
        },
    };
    let (x_purpose, j) = match parse_entity_type(s, j) {
        Some(x) => x,
        None => {
            return None;
        },
    };
    let j = match expect_lit(s, j, ",\"name\":") {
        Some(j) => j,
        None => {
            return None;
        },
    };
    let (x_name, j) = match parse_opt_jstr(s, j) {
        Some(x) => x,
        None => {
            return None;
        },
    };
    let j = match expect_lit(s, j, ",\"telecom\":") {
        Some(j) => j,
        None => {
            return None;
        },
    };
    let (x_telecom, j) = match parse_contact_point_arr(s, j) {
        Some(x) => x,
        None => {
            return None;
        },
    };
    let j = match expect_lit(s, j, ",\"address\":") {
        Some(j) => j,
        None => {
            return None;
        },
    };
    let (x_address, j) = match parse_opt_address(s, j) {
        Some(x) => x,
        None => {
            return None;
        },
    };
    let j = match expect_lit(s, j, ",\"period\":") {
        Some(j) => j,
        None => {
            return None;
        },
    };
    let (x_period, j) = match parse_opt_period(s, j) {
        Some(x) => x,
        None => {
            return None;
        },
    };
    let j = match expect_lit(s, j, "}") {
        Some(j) => j,
        None => {
            return None;
        },
    };
    let ret = FhirExtendedContactDetail {
        purpose: x_purpose,
        name: x_name,
        telecom: x_telecom,
        address: x_address,
        period: x_period,
    };
    proof {
        assert(ret@ =~= EcdV {
            purpose: x_purpose,
            name: opt_str_view(x_name),
            telecom: x_telecom@.map_values(|e: FhirContactPoint| e@),
            address: opt_address_view(x_address),
            period: opt_period_view(x_period),
        });
    }
    Some((ret, j))
}

pub fn dup_ecd(x: &FhirExtendedContactDetail) -> (r: FhirExtendedContactDetail)
    ensures
        r@ == x@,
{
    let r = FhirExtendedContactDetail {
        purpose: x.purpose,
        name: crate::datatypes::dup_opt_string(&x.name),
        telecom: crate::datatypes::dup_contact_points(&x.telecom),
        address: match &x.address {
            None => None,
            Some(a) => Some(crate::datatypes::dup_address(a)),
        },
        period: crate::datatypes::dup_opt_period(&x.period),
    };
    proof {
        assert(r@ =~= x@);
    }
    r
}

pub fn dup_ecds(v: &Vec<FhirExtendedContactDetail>) -> (r: Vec<FhirExtendedContactDetail>)
    ensures
        r@.map_values(|e: FhirExtendedContactDetail| e@) == v@.map_values(
            |e: FhirExtendedContactDetail| e@,
        ),
{
    let mut r: Vec<FhirExtendedContactDetail> = Vec::new();
    let mut k: usize = 0;
    while k < v.len()
        invariant
            k <= v.len(),
            r@.len() == k,
            forall|j: int| 0 <= j < k ==> r@[j]@ == v@[j]@,
        decreases v.len() - k,
    {
        r.push(dup_ecd(&v[k]));
        k += 1;
    }
    proof {
        assert(r@.map_values(|e: FhirExtendedContactDetail| e@) =~= v@.map_values(
            |e: FhirExtendedContactDetail| e@,
        ));
    }
    r
}

pub proof fn lemma_p_arr_ecd(items: Seq<EcdV>, rest: Seq<char>)
    ensures
        p_arr(jarr(items, f_ecd()) + rest, pf_ecd()) == Some((items, rest)),
{
    assert forall|v: EcdV, rr: Seq<char>| items.contains(v) implies #[trigger] pf_ecd()(
        f_ecd()(v) + rr,
    ) == Some((v, rr)) by {
        lemma_p_ecd(v, rr);
    }
    assert forall|v: EcdV| items.contains(v) implies (#[trigger] f_ecd()(v)).len() >= 1
        && f_ecd()(v)[0] != ']' by {
        first_char_ecd(v);
    }
    lemma_p_arr(items, rest, f_ecd(), pf_ecd());
}

proof fn first_char_ecd(v: EcdV)
    ensures
        ecd_json(v).len() >= 1,
        ecd_json(v)[0] == '{',
{
    reveal_strlit("{\"purpose\":");
    assert(ecd_json(v)[0] == "{\"purpose\":"@[0]);
}

pub fn write_ecd_arr(out: &mut Vec<char>, items: &Vec<FhirExtendedContactDetail>) -> (u: ())
    ensures
        final(out)@ == old(out)@ + jarr(items@.map_values(|e: FhirExtendedContactDetail| e@), f_ecd()),
{
    out.push('[');
    let mut k: usize = 0;
    while k < items.len()
        invariant
            k <= items.len(),
            out@ == old(out)@ + seq!['['] + jitems(
                items@.map_values(|e: FhirExtendedContactDetail| e@).take(k as int),
                f_ecd(),
            ),
        decreases items.len() - k,
    {
        if k > 0 {
            out.push(',');
        }
        write_ecd(out, &items[k]);
        proof {
            let dv = items@.map_values(|e: FhirExtendedContactDetail| e@);
            assert(dv.take(k + 1) =~= dv.take(k as int).push(dv[k as int]));
            lemma_jitems_push(dv.take(k as int), dv[k as int], f_ecd());
            assert(f_ecd()(dv[k as int]) == ecd_json(items[k as int]@));
            assert(out@ =~= old(out)@ + seq!['['] + jitems(dv.take(k + 1), f_ecd()));
        }
        k += 1;
    }
    out.push(']');
    proof {
        let dv = items@.map_values(|e: FhirExtendedContactDetail| e@);
        assert(dv.take(dv.len() as int) =~= dv);
        assert(out@ =~= old(out)@ + jarr(dv, f_ecd()));
    }
}

#[verifier::rlimit(100)]
#[verifier::spinoff_prover]
pub fn parse_ecd_arr(s: &Vec<char>, i: usize) -> (r: Option<(Vec<FhirExtendedContactDetail>, usize)>)
    requires
        i <= s@.len(),
    ensures
        match r {
            Some(p) => p.1 <= s@.len() && p_arr(s@.skip(i as int), pf_ecd()) == Some(
                (p.0@.map_values(|e: FhirExtendedContactDetail| e@), s@.skip(p.1 as int)),
            ),
            None => p_arr(s@.skip(i as int), pf_ecd()) is None,
        },
{
    let n = s.len();
    if i >= n || s[i] != '[' {
        proof {
            if s@.skip(i as int).len() >= 1 {
                assert(s@.skip(i as int)[0] == s@[i as int]);
            }
        }
        return None;
    }
    proof {
        assert(s@.skip(i as int)[0] == '[');
    }
    if i + 1 < n && s[i + 1] == ']' {
        let empty: Vec<FhirExtendedContactDetail> = Vec::new();
        proof {
            assert(s@.skip(i as int)[1] == ']');
            assert(s@.skip(i as int).skip(2) =~= s@.skip(i + 2));
            assert(empty@.map_values(|e: FhirExtendedContactDetail| e@) =~= Seq::<EcdV>::empty());
        }
        return Some((empty, i + 2));
    }
    proof {
        if s@.skip(i as int).len() >= 2 {
            assert(s@.skip(i as int)[1] == s@[i + 1]);
        }
        assert(s@.skip(i as int).skip(1) =~= s@.skip(i + 1));
    }
    let mut acc: Vec<FhirExtendedContactDetail> = Vec::new();
    let mut cur: usize = i + 1;
    let ghost pf = pf_ecd();
    proof {
        assert(acc@.map_values(|e: FhirExtendedContactDetail| e@) =~= Seq::<EcdV>::empty());
        match p_items(s@.skip(i + 1), pf) {
            Some((t, r)) => {
                assert(Seq::<EcdV>::empty() + t =~= t);
            },
            None => {},
        }
    }
    loop
        invariant
            i + 1 <= cur <= n,
            n == s@.len(),
            pf == pf_ecd(),
            p_arr(s@.skip(i as int), pf) == p_items(s@.skip(i + 1), pf),
            p_items(s@.skip(i + 1), pf) == prepend_items(
                acc@.map_values(|e: FhirExtendedContactDetail| e@),
                p_items(s@.skip(cur as int), pf),
            ),
        decreases s@.len() - cur,
    {
        let ghost scur = s@.skip(cur as int);
        match parse_ecd(s, cur) {
            None => {
                proof {
                    assert(pf(scur) == p_ecd(scur));
                    lemma_p_items_none(scur, pf);
                }
                return None;
            },
            Some((t, j)) => {
                if j <= cur {
                    proof {
                        assert(pf(scur) == p_ecd(scur));
                        assert(s@.skip(j as int).len() >= scur.len());
                        lemma_p_items_none(scur, pf);
                    }
                    return None;
                }
                proof {
                    assert(s@.skip(j as int).len() < scur.len());
                }
                let ghost dv0 = acc@.map_values(|e: FhirExtendedContactDetail| e@);
                let ghost tv = t@;
                acc.push(t);
                proof {
                    assert(acc@.map_values(|e: FhirExtendedContactDetail| e@) =~= dv0.push(tv));
                }
                if j < n && s[j] == ',' {
                    proof {
                        let rj = s@.skip(j as int);
                        assert(rj[0] == ',');
                        assert(rj.skip(1) =~= s@.skip(j + 1));
                        assert(pf(scur) == p_ecd(scur));
                        lemma_p_items_step(scur, rj, tv, pf);
                        lemma_prepend_items_assoc(dv0, seq![tv], p_items(s@.skip(j + 1), pf));
                        assert(dv0 + seq![tv] =~= dv0.push(tv));
                    }
                    cur = j + 1;
                } else if j < n && s[j] == ']' {
                    proof {
                        let rj = s@.skip(j as int);
                        assert(rj[0] == ']');
                        assert(rj.skip(1) =~= s@.skip(j + 1));
                        assert(pf(scur) == p_ecd(scur));
                        lemma_p_items_step(scur, rj, tv, pf);
                        assert(dv0 + seq![tv] =~= dv0.push(tv));
                    }
                    return Some((acc, j + 1));
                } else {
                    proof {
                        let rj = s@.skip(j as int);
                        if rj.len() >= 1 {
                            assert(rj[0] == s@[j as int]);
                        }
                        assert(pf(scur) == p_ecd(scur));
                        lemma_p_items_step(scur, rj, tv, pf);
                    }
                    return None;
                }
            },
        }
    }
}


} // verus!
