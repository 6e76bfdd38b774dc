//! The Practitioner resource: a named person with contact points and an
//! opaque extension payload, bound to protocol kind 2001 and the FHIR tag
//! `Practitioner`. On the wire the contact array is carried under the JSON
//! key `type`, kept for byte compatibility with existing consumers.

use vstd::prelude::*;
use serde_json::Value;
use crate::jsontext::{p_lit, lemma_p_lit, expect_lit, push_lit, jarr, p_arr};
use crate::jsonval::{value_text, val_opt_view, reparses, jext, p_ext, lemma_p_ext,
    write_ext, parse_ext};
use crate::valuesets::FhirContactPointSystem;
use crate::datatypes::{FhirHumanName, HumanNameV, human_name_json, p_human_name,
    lemma_p_human_name, write_human_name, parse_human_name, FhirContactPoint, ContactPointV,
    f_contact_point, pf_contact_point, write_contact_point_arr, parse_contact_point_arr,
    lemma_p_arr_contact_point, dup_human_name, dup_contact_points};
use crate::fhir_trait::{FhirResource, FhirText};
use crate::consts::NOSTR_KIND_PRACTITIONER;

verus! {
/// A healthcare practitioner.
#[derive(Debug, Clone, PartialEq, Eq)]
pub struct FhirPractitioner {
    name: FhirHumanName,
    contact: Vec<FhirContactPoint>,
    extension: Option<Value>,
}

#[verifier::ext_equal]
pub ghost struct PractitionerV {
    pub name: HumanNameV,
    pub contact: Seq<ContactPointV>,
    pub extension: Option<Seq<char>>,
}

impl View for FhirPractitioner {
    type V = PractitionerV;

    closed spec fn view(&self) -> PractitionerV {
        PractitionerV {
            name: self.name@,
            contact: self.contact@.map_values(|e: FhirContactPoint| e@),
            extension: val_opt_view(self.extension),
        }
    }
}

pub open spec fn practitioner_json(v: PractitionerV) -> Seq<char> {
    "{\"name\":"@ + human_name_json(v.name) + ",\"type\":"@ + jarr(v.contact, f_contact_point()) + ",\"extension\":"@ + jext(v.extension) + "}"@
}

pub open spec fn f_practitioner() -> spec_fn(PractitionerV) -> Seq<char> {
    |v: PractitionerV| practitioner_json(v)
}

pub open spec fn pf_practitioner() -> spec_fn(Seq<char>) -> Option<(PractitionerV, Seq<char>)> {
    |s: Seq<char>| p_practitioner(s)
}

pub open spec fn p_practitioner(s: Seq<char>) -> Option<(PractitionerV, Seq<char>)> {
    match p_lit(s, "{\"name\":"@) {
        Some(s1) => match p_human_name(s1) {
            Some((x_name, s2)) => match p_lit(s2, ",\"type\":"@) {
                Some(s3) => match p_arr(s3, pf_contact_point()) {
                    Some((x_contact, s4)) => match p_lit(s4, ",\"extension\":"@) {
                        Some(s5) => match p_ext(s5) {
                            Some((x_extension, s6)) => match p_lit(s6, "}"@) {
                                Some(s7) => Some((
                                    PractitionerV {
                                        name: x_name,
                                        contact: x_contact,
                                        extension: x_extension,
                                    },
                                    s7,
                                )),
                                None => None,
                            },
                            None => None,
                        },
                        None => None,
                    },
                    None => None,
                },
                None => None,
            },
            None => None,
        },
        None => None,
    }
}

pub proof fn lemma_p_practitioner(v: PractitionerV, rest: Seq<char>)
    requires
        v.extension matches Some(t) ==> reparses(t),
    ensures
        p_practitioner(practitioner_json(v) + rest) == Some((v, rest)),
{
    let c1 = human_name_json(v.name);
    let c2 = jarr(v.contact, f_contact_point());
    let c3 = jext(v.extension);
    let t6 = "}"@ + rest;
    let t5 = c3 + t6;
    let t4 = ",\"extension\":"@ + t5;
    let t3 = c2 + t4;
    let t2 = ",\"type\":"@ + t3;
    let t1 = c1 + t2;
    let t0 = "{\"name\":"@ + t1;
    vstd::seq_lib::lemma_concat_associative("{\"name\":"@ + c1 + ",\"type\":"@ + c2 + ",\"extension\":"@ + c3, "}"@, rest);
    vstd::seq_lib::lemma_concat_associative("{\"name\":"@ + c1 + ",\"type\":"@ + c2 + ",\"extension\":"@, c3, t6);
    vstd::seq_lib::lemma_concat_associative("{\"name\":"@ + c1 + ",\"type\":"@ + c2, ",\"extension\":"@, t5);
    vstd::seq_lib::lemma_concat_associative("{\"name\":"@ + c1 + ",\"type\":"@, c2, t4);
    vstd::seq_lib::lemma_concat_associative("{\"name\":"@ + c1, ",\"type\":"@, t3);
    vstd::seq_lib::lemma_concat_associative("{\"name\":"@, c1, t2);
    assert(practitioner_json(v) + rest == t0);
    lemma_p_lit("{\"name\":"@, t1);
    lemma_p_human_name(v.name, t2);
    lemma_p_lit(",\"type\":"@, t3);
    lemma_p_arr_contact_point(v.contact, t4);
    lemma_p_lit(",\"extension\":"@, t5);
    lemma_p_ext(v.extension, t6);
    lemma_p_lit("}"@, rest);
    assert(p_practitioner(t0) == Some((PractitionerV { name: v.name, contact: v.contact, extension: v.extension }, rest)));
    assert(PractitionerV { name: v.name, contact: v.contact, extension: v.extension } =~= v);
}

pub fn write_practitioner(out: &mut Vec<char>, x: &FhirPractitioner) -> (u: ())
    ensures
        final(out)@ == old(out)@ + practitioner_json(x@),
{
    push_lit(out, "{\"name\":");
    write_human_name(out, &x.name);
    push_lit(out, ",\"type\":");
    write_contact_point_arr(out, &x.contact);
    push_lit(out, ",\"extension\":");
    write_ext(out, &x.extension);
    push_lit(out, "}");
    proof {
        vstd::seq_lib::lemma_concat_associative(old(out)@, "{\"name\":"@, human_name_json(x@.name));
        vstd::seq_lib::lemma_concat_associative(old(out)@, "{\"name\":"@ + human_name_json(x@.name), ",\"type\":"@);
        vstd::seq_lib::lemma_concat_associative(old(out)@, "{\"name\":"@ + human_name_json(x@.name) + ",\"type\":"@, jarr(x@.contact, f_contact_point()));
        vstd::seq_lib::lemma_concat_associative(old(out)@, "{\"name\":"@ + human_name_json(x@.name) + ",\"type\":"@ + jarr(x@.contact, f_contact_point()), ",\"extension\":"@);
        vstd::seq_lib::lemma_concat_associative(old(out)@, "{\"name\":"@ + human_name_json(x@.name) + ",\"type\":"@ + jarr(x@.contact, f_contact_point()) + ",\"extension\":"@, jext(x@.extension));
        vstd::seq_lib::lemma_concat_associative(old(out)@, "{\"name\":"@ + human_name_json(x@.name) + ",\"type\":"@ + jarr(x@.contact, f_contact_point()) + ",\"extension\":"@ + jext(x@.extension), "}"@);
        assert(out@ == old(out)@ + practitioner_json(x@));
    }
}

pub fn parse_practitioner(s: &Vec<char>, i: usize) -> (r: Option<(FhirPractitioner, usize)>)
    requires
        i <= s@.len(),
    ensures
        match r {
            Some(p) => p.1 <= s@.len() && p_practitioner(s@.skip(i as int)) == Some(
                (p.0@, s@.skip(p.1 as int)),
            ) && practitioner_wf(p.0@),
            None => p_practitioner(s@.skip(i as int)) is None,
        },
{
    let j = match expect_lit(s, i, "{\"name\":") {
        Some(j) => j,
        None => {
            return None;
        },
    };
    let (x_name, j) = match parse_human_name(s, j) {
        Some(x) => x,
        None => {
            return None;
        },
    };
    let j = match expect_lit(s, j, ",\"type\":") {
        Some(j) => j,
        None => {
            return None;
        },
    };
    let (x_contact, j) = match parse_contact_point_arr(s, j) {
        Some(x) => x,
        None => {
            return None;
        },
    };
    let j = match expect_lit(s, j, ",\"extension\":") {
        Some(j) => j,
        None => {
            return None;
        },
    };
    let (x_extension, j) = match parse_ext(s, j) {
        Some(x) => x,
        None => {
            return None;
        },
    };
    let j = match expect_lit(s, j, "}") {
        Some(j) => j,
        None => {
            return None;
        },
    };
    let ret = FhirPractitioner {
        name: x_name,
        contact: x_contact,
        extension: x_extension,
    };
    proof {
        assert(ret@ =~= PractitionerV {
            name: x_name@,
            contact: x_contact@.map_values(|e: FhirContactPoint| e@),
            extension: val_opt_view(x_extension),
        });
    }
    Some((ret, j))
}

/// Whole-text parsing of a practitioner.
pub open spec fn practitioner_parse(s: Seq<char>) -> Option<PractitionerV> {
    match p_practitioner(s) {
        Some((v, r)) => if r.len() == 0 {
            Some(v)
        } else {
            None
        },
        None => None,
    }
}

/// Well-formedness of a practitioner view: the extension payload it carries,
/// if any, reparses to a value with the same canonical text.
pub open spec fn practitioner_wf(v: PractitionerV) -> bool {
    v.extension matches Some(t) ==> reparses(t)
}

/// The first contact point with the given system, if any.
pub open spec fn first_by_system(s: Seq<ContactPointV>, sys: FhirContactPointSystem) -> Option<
    ContactPointV,
>
    decreases s.len(),
{
    if s.len() == 0 {
        None
    } else if s[0].system == sys {
        Some(s[0])
    } else {
        first_by_system(s.skip(1), sys)
    }
}

impl FhirPractitioner {
    pub fn new(name: FhirHumanName, contact: Vec<FhirContactPoint>) -> (r: Self)
        ensures
            r@.name == name@,
            r@.contact == contact@.map_values(|e: FhirContactPoint| e@),
            r@.extension is None,
    {
        FhirPractitioner { name, contact, extension: None }
    }

    /// The whole text of the practitioner's name.
    pub fn text_name(&self) -> (r: String)
        ensures
            r@ == self@.name.text,
    {
        self.name.text.clone()
    }

    fn first_contact_by_system(&self, sys: FhirContactPointSystem) -> (r: Option<
        &FhirContactPoint,
    >)
        ensures
            match r {
                Some(cp) => first_by_system(self@.contact, sys) == Some(cp@),
                None => first_by_system(self@.contact, sys) is None,
            },
    {
        let ghost cv = self@.contact;
        proof {
            assert(cv.skip(0) =~= cv);
        }
        let mut k: usize = 0;
        while k < self.contact.len()
            invariant
                k <= self.contact.len(),
                cv == self@.contact,
                cv.len() == self.contact@.len(),
                forall|j: int| 0 <= j < cv.len() ==> cv[j] == self.contact@[j]@,
                first_by_system(cv, sys) == first_by_system(cv.skip(k as int), sys),
            decreases self.contact.len() - k,
        {
            if self.contact[k].system == sys {
                proof {
                    assert(cv.skip(k as int)[0] == cv[k as int]);
                }
                return Some(&self.contact[k]);
            }
            proof {
                assert(cv.skip(k as int)[0] == cv[k as int]);
                assert(cv.skip(k as int).skip(1) =~= cv.skip(k + 1));
            }
            k += 1;
        }
        proof {
            assert(cv.skip(k as int).len() == 0);
        }
        None
    }

    /// The first email contact point, if any.
    pub fn get_email(&self) -> (r: Option<&FhirContactPoint>)
        ensures
            match r {
                Some(cp) => first_by_system(self@.contact, FhirContactPointSystem::Email) == Some(
                    cp@,
                ),
                None => first_by_system(self@.contact, FhirContactPointSystem::Email) is None,
            },
    {
        self.first_contact_by_system(FhirContactPointSystem::Email)
    }

    /// The first phone contact point, if any.
    pub fn get_phone(&self) -> (r: Option<&FhirContactPoint>)
        ensures
            match r {
                Some(cp) => first_by_system(self@.contact, FhirContactPointSystem::Phone) == Some(
                    cp@,
                ),
                None => first_by_system(self@.contact, FhirContactPointSystem::Phone) is None,
            },
    {
        self.first_contact_by_system(FhirContactPointSystem::Phone)
    }

    /// The opaque extension payload, if any.
    pub fn get_extension(&self) -> (r: &Option<Value>)
        ensures
            val_opt_view(*r) == self@.extension,
    {
        &self.extension
    }

    /// Attach an opaque extension payload.
    pub fn extend(&mut self, extension: Value) -> (u: ())
        ensures
            final(self)@.name == old(self)@.name,
            final(self)@.contact == old(self)@.contact,
            final(self)@.extension == Some(value_text(extension)),
    {
        self.extension = Some(extension);
    }
}

impl FhirResource for FhirPractitioner {
    open spec fn kind_spec() -> u32 {
        NOSTR_KIND_PRACTITIONER
    }

    open spec fn rtype_spec() -> Seq<char> {
        "Practitioner"@
    }

    open spec fn json_of(v: PractitionerV) -> Seq<char> {
        practitioner_json(v)
    }

    open spec fn parse_of(s: Seq<char>) -> Option<PractitionerV> {
        practitioner_parse(s)
    }

    open spec fn div_of(v: PractitionerV) -> Seq<char> {
        v.name.text
    }

    open spec fn wf(v: PractitionerV) -> bool {
        practitioner_wf(v)
    }

    proof fn lemma_roundtrip(v: PractitionerV) {
        lemma_p_practitioner(v, Seq::empty());
        assert(practitioner_json(v) + Seq::<char>::empty() =~= practitioner_json(v));
    }

    proof fn lemma_json_shape(v: PractitionerV) {
        reveal_strlit("{\"name\":");
        assert(practitioner_json(v)[0] == "{\"name\":"@[0]);
        assert(practitioner_json(v)[1] == "{\"name\":"@[1]);
    }

    fn nostr_kind(&self) -> (r: u32) {
        NOSTR_KIND_PRACTITIONER
    }

    fn resource_type(&self) -> (r: &str) {
        "Practitioner"
    }

    fn text(&self) -> (r: FhirText) {
        FhirText::new(self.name.text.clone())
    }

    fn to_json(&self) -> (r: Vec<char>) {
        let mut out: Vec<char> = Vec::new();
        write_practitioner(&mut out, self);
        proof {
            assert(Seq::<char>::empty() + practitioner_json(self@) =~= practitioner_json(self@));
        }
        out
    }

    fn from_json(s: &Vec<char>) -> (r: Option<Self>) {
        proof {
            assert(s@.skip(0) =~= s@);
        }
        match parse_practitioner(s, 0) {
            Some((x, j)) => {
                if j == s.len() {
                    proof {
                        assert(s@.skip(j as int).len() == 0);
                    }
                    Some(x)
                } else {
                    proof {
                        assert(s@.skip(j as int).len() != 0);
                    }
                    None
                }
            },
            None => None,
        }
    }

    fn dup(&self) -> (r: Self) {
        let r = FhirPractitioner {
            name: dup_human_name(&self.name),
            contact: dup_contact_points(&self.contact),
            extension: match &self.extension {
                None => None,
                Some(v) => Some(v.clone()),
            },
        };
        proof {
            assert(r@ =~= self@);
        }
        r
    }
}

} // verus!
