//! The Organization resource: a named provider with extended contact details,
//! bound to protocol kind 2000 and the FHIR tag `Organization`.

use vstd::prelude::*;
use crate::jsontext::{jstr, p_jstr, lemma_p_jstr, parse_jstr, write_jstr, p_lit, lemma_p_lit,
    expect_lit, push_lit, jarr, p_arr};
use crate::jsonval::chars_to_string;
use crate::valuesets::{FhirOrganizationType, org_type_code, p_org_type, parse_org_type,
    lemma_org_type_roundtrip};
use crate::metadata::{FhirExtendedContactDetail, EcdV, f_ecd, pf_ecd, write_ecd_arr,
    parse_ecd_arr, lemma_p_arr_ecd, dup_ecds};
use crate::datatypes::self_str;
use crate::fhir_trait::{FhirResource, FhirText};
use crate::consts::NOSTR_KIND_ORGANIZATION;

verus! {
/// A healthcare organization.
#[derive(Debug, Clone, PartialEq, Eq)]
pub struct FhirOrganization {
    name: String,
    org_type: FhirOrganizationType,
    contact: Vec<FhirExtendedContactDetail>,
    description: String,
}

#[verifier::ext_equal]
pub ghost struct OrgV {
    pub name: Seq<char>,
    pub org_type: FhirOrganizationType,
    pub contact: Seq<EcdV>,
    pub description: Seq<char>,
}

impl View for FhirOrganization {
    type V = OrgV;

    closed spec fn view(&self) -> OrgV {
        OrgV {
            name: self.name@,
            org_type: self.org_type,
            contact: self.contact@.map_values(|e: FhirExtendedContactDetail| e@),
            description: self.description@,
        }
    }
}

pub open spec fn org_json(v: OrgV) -> Seq<char> {
    "{\"name\":"@ + jstr(v.name) + ",\"type\":"@ + jstr(org_type_code(v.org_type)) + ",\"contact\":"@ + jarr(v.contact, f_ecd()) + ",\"description\":"@ + jstr(v.description) + "}"@
}

pub open spec fn f_org() -> spec_fn(OrgV) -> Seq<char> {
    |v: OrgV| org_json(v)
}

pub open spec fn pf_org() -> spec_fn(Seq<char>) -> Option<(OrgV, Seq<char>)> {
    |s: Seq<char>| p_org(s)
}

pub open spec fn p_org(s: Seq<char>) -> Option<(OrgV, Seq<char>)> {
    match p_lit(s, "{\"name\":"@) {
        Some(s1) => match p_jstr(s1) {
            Some((x_name, s2)) => match p_lit(s2, ",\"type\":"@) {
                Some(s3) => match p_org_type(s3) {
                    Some((x_org_type, s4)) => match p_lit(s4, ",\"contact\":"@) {
                        Some(s5) => match p_arr(s5, pf_ecd()) {
                            Some((x_contact, s6)) => match p_lit(s6, ",\"description\":"@) {
                                Some(s7) => match p_jstr(s7) {
                                    Some((x_description, s8)) => match p_lit(s8, "}"@) {
                                        Some(s9) => Some((
                                            OrgV {
                                                name: x_name,
                                                org_type: x_org_type,
                                                contact: x_contact,
                                                description: x_description,
                                            },
                                            s9,
                                        )),
                                        None => None,
                                    },
                                    None => None,
                                },
                                None => None,
                            },
                            None => None,
                        },
                        None => None,
                    },
                    None => None,
                },
                None => None,
            },
            None => None,
        },
        None => None,
    }
}

pub proof fn lemma_p_org(v: OrgV, rest: Seq<char>)
    ensures
        p_org(org_json(v) + rest) == Some((v, rest)),
{
    let c1 = jstr(v.name);
    let c2 = jstr(org_type_code(v.org_type));
    let c3 = jarr(v.contact, f_ecd());
    let c4 = jstr(v.description);
    let t8 = "}"@ + rest;
    let t7 = c4 + t8;
    let t6 = ",\"description\":"@ + t7;
    let t5 = c3 + t6;
    let t4 = ",\"contact\":"@ + t5;
    let t3 = c2 + t4;
    let t2 = ",\"type\":"@ + t3;
    let t1 = c1 + t2;
    let t0 = "{\"name\":"@ + t1;
    vstd::seq_lib::lemma_concat_associative("{\"name\":"@ + c1 + ",\"type\":"@ + c2 + ",\"contact\":"@ + c3 + ",\"description\":"@ + c4, "}"@, rest);
    vstd::seq_lib::lemma_concat_associative("{\"name\":"@ + c1 + ",\"type\":"@ + c2 + ",\"contact\":"@ + c3 + ",\"description\":"@, c4, t8);
    vstd::seq_lib::lemma_concat_associative("{\"name\":"@ + c1 + ",\"type\":"@ + c2 + ",\"contact\":"@ + c3, ",\"description\":"@, t7);
    vstd::seq_lib::lemma_concat_associative("{\"name\":"@ + c1 + ",\"type\":"@ + c2 + ",\"contact\":"@, c3, t6);
    vstd::seq_lib::lemma_concat_associative("{\"name\":"@ + c1 + ",\"type\":"@ + c2, ",\"contact\":"@, t5);
    vstd::seq_lib::lemma_concat_associative("{\"name\":"@ + c1 + ",\"type\":"@, c2, t4);
    vstd::seq_lib::lemma_concat_associative("{\"name\":"@ + c1, ",\"type\":"@, t3);
    vstd::seq_lib::lemma_concat_associative("{\"name\":"@, c1, t2);
    assert(org_json(v) + rest == t0);
    lemma_p_lit("{\"name\":"@, t1);
    lemma_p_jstr(v.name, t2);
    lemma_p_lit(",\"type\":"@, t3);
    lemma_org_type_roundtrip(v.org_type, t4);
    lemma_p_lit(",\"contact\":"@, t5);
    lemma_p_arr_ecd(v.contact, t6);
    lemma_p_lit(",\"description\":"@, t7);
    lemma_p_jstr(v.description, t8);
    lemma_p_lit("}"@, rest);
    assert(p_org(t0) == Some((OrgV { name: v.name, org_type: v.org_type, contact: v.contact, description: v.description }, rest)));
    assert(OrgV { name: v.name, org_type: v.org_type, contact: v.contact, description: v.description } =~= v);
}

pub fn write_org(out: &mut Vec<char>, x: &FhirOrganization) -> (u: ())
    ensures
        final(out)@ == old(out)@ + org_json(x@),
{
    push_lit(out, "{\"name\":");
    write_jstr(out, self_str(&x.name));
    push_lit(out, ",\"type\":");
    write_jstr(out, x.org_type.code_str());
    push_lit(out, ",\"contact\":");
    write_ecd_arr(out, &x.contact);
    push_lit(out, ",\"description\":");
    write_jstr(out, self_str(&x.description));
    push_lit(out, "}");
    proof {
        vstd::seq_lib::lemma_concat_associative(old(out)@, "{\"name\":"@, jstr(x@.name));
        vstd::seq_lib::lemma_concat_associative(old(out)@, "{\"name\":"@ + jstr(x@.name), ",\"type\":"@);
        vstd::seq_lib::lemma_concat_associative(old(out)@, "{\"name\":"@ + jstr(x@.name) + ",\"type\":"@, jstr(org_type_code(x@.org_type)));
        vstd::seq_lib::lemma_concat_associative(old(out)@, "{\"name\":"@ + jstr(x@.name) + ",\"type\":"@ + jstr(org_type_code(x@.org_type)), ",\"contact\":"@);
        vstd::seq_lib::lemma_concat_associative(old(out)@, "{\"name\":"@ + jstr(x@.name) + ",\"type\":"@ + jstr(org_type_code(x@.org_type)) + ",\"contact\":"@, jarr(x@.contact, f_ecd()));
        vstd::seq_lib::lemma_concat_associative(old(out)@, "{\"name\":"@ + jstr(x@.name) + ",\"type\":"@ + jstr(org_type_code(x@.org_type)) + ",\"contact\":"@ + jarr(x@.contact, f_ecd()), ",\"description\":"@);
        vstd::seq_lib::lemma_concat_associative(old(out)@, "{\"name\":"@ + jstr(x@.name) + ",\"type\":"@ + jstr(org_type_code(x@.org_type)) + ",\"contact\":"@ + jarr(x@.contact, f_ecd()) + ",\"description\":"@, jstr(x@.description));
        vstd::seq_lib::lemma_concat_associative(old(out)@, "{\"name\":"@ + jstr(x@.name) + ",\"type\":"@ + jstr(org_type_code(x@.org_type)) + ",\"contact\":"@ + jarr(x@.contact, f_ecd()) + ",\"description\":"@ + jstr(x@.description), "}"@);
        assert(out@ == old(out)@ + org_json(x@));
    }
}

pub fn parse_org(s: &Vec<char>, i: usize) -> (r: Option<(FhirOrganization, usize)>)
    requires
        i <= s@.len(),
    ensures
        match r {
            Some(p) => p.1 <= s@.len() && p_org(s@.skip(i as int)) == Some(
                (p.0@, s@.skip(p.1 as int)),
            ),
            None => p_org(s@.skip(i as int)) is None,
        },
{
    let j = match expect_lit(s, i, "{\"name\":") {
        Some(j) => j,
        None => {
            return None;
        },
    };
    let (x_name, j) = match parse_jstr(s, j) {
        Some(x) => x,
        None => {
            return None;
        },
    };
    let j = match expect_lit(s, j, ",\"type\":") {
        Some(j) => j,
        None => {
            return None;
        },
    };
    let (x_org_type, j) = match parse_org_type(s, j) {
        Some(x) => x,
        None => {
            return None;
        },
    };
    let j = match expect_lit(s, j, ",\"contact\":") {
        Some(j) => j,
        None => {
            return None;
        },
    };
    let (x_contact, j) = match parse_ecd_arr(s, j) {
        Some(x) => x,
        None => {
            return None;
        },
    };
    let j = match expect_lit(s, j, ",\"description\":") {
        Some(j) => j,
        None => {
            return None;
        },
    };
    let (x_description, j) = match parse_jstr(s, j) {
        Some(x) => x,
        None => {
            return None;
        },
    };
    let j = match expect_lit(s, j, "}") {
        Some(j) => j,
        None => {
            return None;
        },
    };
    let ret = FhirOrganization {
        name: chars_to_string(x_name),
        org_type: x_org_type,
        contact: x_contact,
        description: chars_to_string(x_description),
    };
    proof {
        assert(ret@ =~= OrgV {
            name: x_name@,
            org_type: x_org_type,
            contact: x_contact@.map_values(|e: FhirExtendedContactDetail| e@),
            description: x_description@,
        });
    }
    Some((ret, j))
}

/// Whole-text parsing of an organization.
pub open spec fn org_parse(s: Seq<char>) -> Option<OrgV> {
    match p_org(s) {
        Some((v, r)) => if r.len() == 0 {
            Some(v)
        } else {
            None
        },
        None => None,
    }
}

impl FhirOrganization {
    pub fn new(
        name: String,
        org_type: FhirOrganizationType,
        contact: Vec<FhirExtendedContactDetail>,
        description: String,
    ) -> (r: Self)
        ensures
            r@.name == name@,
            r@.org_type == org_type,
            r@.contact == contact@.map_values(|e: FhirExtendedContactDetail| e@),
            r@.description == description@,
    {
        FhirOrganization { name, org_type, contact, description }
    }
}

impl FhirResource for FhirOrganization {
    open spec fn kind_spec() -> u32 {
        NOSTR_KIND_ORGANIZATION
    }

    open spec fn rtype_spec() -> Seq<char> {
        "Organization"@
    }

    open spec fn json_of(v: OrgV) -> Seq<char> {
        org_json(v)
    }

    open spec fn parse_of(s: Seq<char>) -> Option<OrgV> {
        org_parse(s)
    }

    open spec fn div_of(v: OrgV) -> Seq<char> {
        v.name
    }

    open spec fn wf(v: OrgV) -> bool {
        true
    }

    proof fn lemma_roundtrip(v: OrgV) {
        lemma_p_org(v, Seq::empty());
        assert(org_json(v) + Seq::<char>::empty() =~= org_json(v));
    }

    proof fn lemma_json_shape(v: OrgV) {
        reveal_strlit("{\"name\":");
        assert(org_json(v)[0] == "{\"name\":"@[0]);
        assert(org_json(v)[1] == "{\"name\":"@[1]);
    }

    fn nostr_kind(&self) -> (r: u32) {
        NOSTR_KIND_ORGANIZATION
    }

    fn resource_type(&self) -> (r: &str) {
        "Organization"
    }

    fn text(&self) -> (r: FhirText) {
        FhirText::new(self.name.clone())
    }

    fn to_json(&self) -> (r: Vec<char>) {
        let mut out: Vec<char> = Vec::new();
        write_org(&mut out, self);
        proof {
            assert(Seq::<char>::empty() + org_json(self@) =~= org_json(self@));
        }
        out
    }

    fn from_json(s: &Vec<char>) -> (r: Option<Self>) {
        proof {
            assert(s@.skip(0) =~= s@);
        }
        match parse_org(s, 0) {
            Some((x, j)) => {
                if j == s.len() {
                    proof {
                        assert(s@.skip(j as int).len() == 0);
                    }
                    Some(x)
                } else {
                    proof {
                        assert(s@.skip(j as int).len() != 0);
                    }
                    None
                }
            },
            None => None,
        }
    }

    fn dup(&self) -> (r: Self) {
        let r = FhirOrganization {
            name: self.name.clone(),
            org_type: self.org_type,
            contact: dup_ecds(&self.contact),
            description: self.description.clone(),
        };
        proof {
            assert(r@ =~= self@);
        }
        r
    }
}

} // verus!
