//! The Appointment resource: a booked encounter with a coded service
//! category, specialty, and an instant window, bound to protocol kind 2002
//! and the FHIR tag `Appointment`. The status stays mutable before signing;
//! the other fields are read-only after construction.

use vstd::prelude::*;
use serde_json::Value;
use crate::jsontext::{jstr, p_jstr, lemma_p_jstr, parse_jstr, write_jstr, p_lit, lemma_p_lit,
    expect_lit, push_lit, jopt, p_opt};
use crate::jsonval::{chars_to_string, value_text, val_opt_view, reparses, jext, p_ext,
    lemma_p_ext, write_ext, parse_ext};
use crate::valuesets::{FhirAppointmentStatus, FhirSpecialty, appt_status_code, p_appt_status,
    parse_appt_status, lemma_appt_status_roundtrip};
use crate::datatypes::{FhirInstant, opt_str_view, lemma_p_opt_jstr, write_opt_jstr,
    parse_opt_jstr, dup_instant, dup_opt_string, self_str};
use crate::jsontext::{jstr_f, pf_jstr};
use crate::fhir_trait::{FhirResource, FhirText};
use crate::consts::NOSTR_KIND_APPOINTMENT;

verus! {
/// A healthcare appointment.
#[derive(Debug, Clone, PartialEq, Eq)]
pub struct FhirAppointment {
    status: FhirAppointmentStatus,
    service_category: String,
    specialty: FhirSpecialty,
    start: FhirInstant,
    end: FhirInstant,
    description: Option<String>,
    extension: Option<Value>,
}

#[verifier::ext_equal]
pub ghost struct AppointmentV {
    pub status: FhirAppointmentStatus,
    pub service_category: Seq<char>,
    pub specialty: Seq<char>,
    pub start: Seq<char>,
    pub end: Seq<char>,
    pub description: Option<Seq<char>>,
    pub extension: Option<Seq<char>>,
}

impl View for FhirAppointment {
    type V = AppointmentV;

    closed spec fn view(&self) -> AppointmentV {
        AppointmentV {
            status: self.status,
            service_category: self.service_category@,
            specialty: self.specialty@,
            start: self.start@,
            end: self.end@,
            description: opt_str_view(self.description),
            extension: val_opt_view(self.extension),
        }
    }
}

pub open spec fn appointment_json(v: AppointmentV) -> Seq<char> {
    "{\"status\":"@ + jstr(appt_status_code(v.status)) + ",\"serviceCategory\":"@ + jstr(v.service_category) + ",\"specialty\":"@ + jstr(v.specialty) + ",\"start\":"@ + jstr(v.start) + ",\"end\":"@ + jstr(v.end) + ",\"description\":"@ + jopt(v.description, jstr_f()) + ",\"extension\":"@ + jext(v.extension) + "}"@
}

pub open spec fn f_appointment() -> spec_fn(AppointmentV) -> Seq<char> {
    |v: AppointmentV| appointment_json(v)
}

pub open spec fn pf_appointment() -> spec_fn(Seq<char>) -> Option<(AppointmentV, Seq<char>)> {
    |s: Seq<char>| p_appointment(s)
}

pub open spec fn p_appointment(s: Seq<char>) -> Option<(AppointmentV, Seq<char>)> {
    match p_lit(s, "{\"status\":"@) {
        Some(s1) => match p_appt_status(s1) {
            Some((x_status, s2)) => match p_lit(s2, ",\"serviceCategory\":"@) {
                Some(s3) => match p_jstr(s3) {
                    Some((x_service_category, s4)) => match p_lit(s4, ",\"specialty\":"@) {
                        Some(s5) => match p_jstr(s5) {
                            Some((x_specialty, s6)) => match p_lit(s6, ",\"start\":"@) {
                                Some(s7) => match p_jstr(s7) {
                                    Some((x_start, s8)) => match p_lit(s8, ",\"end\":"@) {
                                        Some(s9) => match p_jstr(s9) {
                                            Some((x_end, s10)) => match p_lit(s10, ",\"description\":"@) {
                                                Some(s11) => match p_opt(s11, pf_jstr()) {
                                                    Some((x_description, s12)) => match p_lit(s12, ",\"extension\":"@) {
                                                        Some(s13) => match p_ext(s13) {
                                                            Some((x_extension, s14)) => match p_lit(s14, "}"@) {
                                                                Some(s15) => Some((
                                                                    AppointmentV {
                                                                        status: x_status,
                                                                        service_category: x_service_category,
                                                                        specialty: x_specialty,
                                                                        start: x_start,
                                                                        end: x_end,
                                                                        description: x_description,
                                                                        extension: x_extension,
                                                                    },
                                                                    s15,
                                                                )),
                                                                None => None,
                                                            },
                                                            None => None,
                                                        },
                                                        None => None,
                                                    },
                                                    None => None,
                                                },
                                                None => None,
                                            },
                                            None => None,
                                        },
                                        None => None,
                                    },
                                    None => None,
                                },
                                None => None,
                            },
                            None => None,
                        },
                        None => None,
                    },
                    None => None,
                },
                None => None,
            },
            None => None,
        },
        None => None,
    }
}

pub proof fn lemma_p_appointment(v: AppointmentV, rest: Seq<char>)
    requires
        v.extension matches Some(t) ==> reparses(t),
    ensures
        p_appointment(appointment_json(v) + rest) == Some((v, rest)),
{
    let c1 = jstr(appt_status_code(v.status));
    let c2 = jstr(v.service_category);
    let c3 = jstr(v.specialty);
    let c4 = jstr(v.start);
    let c5 = jstr(v.end);
    let c6 = jopt(v.description, jstr_f());
    let c7 = jext(v.extension);
    let t14 = "}"@ + rest;
    let t13 = c7 + t14;
    let t12 = ",\"extension\":"@ + t13;
    let t11 = c6 + t12;
    let t10 = ",\"description\":"@ + t11;
    let t9 = c5 + t10;
    let t8 = ",\"end\":"@ + t9;
    let t7 = c4 + t8;
    let t6 = ",\"start\":"@ + t7;
    let t5 = c3 + t6;
    let t4 = ",\"specialty\":"@ + t5;
    let t3 = c2 + t4;
    let t2 = ",\"serviceCategory\":"@ + t3;
    let t1 = c1 + t2;
    let t0 = "{\"status\":"@ + t1;
    vstd::seq_lib::lemma_concat_associative("{\"status\":"@ + c1 + ",\"serviceCategory\":"@ + c2 + ",\"specialty\":"@ + c3 + ",\"start\":"@ + c4 + ",\"end\":"@ + c5 + ",\"description\":"@ + c6 + ",\"extension\":"@ + c7, "}"@, rest);
    vstd::seq_lib::lemma_concat_associative("{\"status\":"@ + c1 + ",\"serviceCategory\":"@ + c2 + ",\"specialty\":"@ + c3 + ",\"start\":"@ + c4 + ",\"end\":"@ + c5 + ",\"description\":"@ + c6 + ",\"extension\":"@, c7, t14);
    vstd::seq_lib::lemma_concat_associative("{\"status\":"@ + c1 + ",\"serviceCategory\":"@ + c2 + ",\"specialty\":"@ + c3 + ",\"start\":"@ + c4 + ",\"end\":"@ + c5 + ",\"description\":"@ + c6, ",\"extension\":"@, t13);
    vstd::seq_lib::lemma_concat_associative("{\"status\":"@ + c1 + ",\"serviceCategory\":"@ + c2 + ",\"specialty\":"@ + c3 + ",\"start\":"@ + c4 + ",\"end\":"@ + c5 + ",\"description\":"@, c6, t12);
    vstd::seq_lib::lemma_concat_associative("{\"status\":"@ + c1 + ",\"serviceCategory\":"@ + c2 + ",\"specialty\":"@ + c3 + ",\"start\":"@ + c4 + ",\"end\":"@ + c5, ",\"description\":"@, t11);
    vstd::seq_lib::lemma_concat_associative("{\"status\":"@ + c1 + ",\"serviceCategory\":"@ + c2 + ",\"specialty\":"@ + c3 + ",\"start\":"@ + c4 + ",\"end\":"@, c5, t10);
    vstd::seq_lib::lemma_concat_associative("{\"status\":"@ + c1 + ",\"serviceCategory\":"@ + c2 + ",\"specialty\":"@ + c3 + ",\"start\":"@ + c4, ",\"end\":"@, t9);
    vstd::seq_lib::lemma_concat_associative("{\"status\":"@ + c1 + ",\"serviceCategory\":"@ + c2 + ",\"specialty\":"@ + c3 + ",\"start\":"@, c4, t8);
    vstd::seq_lib::lemma_concat_associative("{\"status\":"@ + c1 + ",\"serviceCategory\":"@ + c2 + ",\"specialty\":"@ + c3, ",\"start\":"@, t7);
    vstd::seq_lib::lemma_concat_associative("{\"status\":"@ + c1 + ",\"serviceCategory\":"@ + c2 + ",\"specialty\":"@, c3, t6);
    vstd::seq_lib::lemma_concat_associative("{\"status\":"@ + c1 + ",\"serviceCategory\":"@ + c2, ",\"specialty\":"@, t5);
    vstd::seq_lib::lemma_concat_associative("{\"status\":"@ + c1 + ",\"serviceCategory\":"@, c2, t4);
    vstd::seq_lib::lemma_concat_associative("{\"status\":"@ + c1, ",\"serviceCategory\":"@, t3);
    vstd::seq_lib::lemma_concat_associative("{\"status\":"@, c1, t2);
    assert(appointment_json(v) + rest == t0);
    lemma_p_lit("{\"status\":"@, t1);
    lemma_appt_status_roundtrip(v.status, t2);
    lemma_p_lit(",\"serviceCategory\":"@, t3);
    lemma_p_jstr(v.service_category, t4);
    lemma_p_lit(",\"specialty\":"@, t5);
    lemma_p_jstr(v.specialty, t6);
    lemma_p_lit(",\"start\":"@, t7);
    lemma_p_jstr(v.start, t8);
    lemma_p_lit(",\"end\":"@, t9);
    lemma_p_jstr(v.end, t10);
    lemma_p_lit(",\"description\":"@, t11);
    lemma_p_opt_jstr(v.description, t12);
    lemma_p_lit(",\"extension\":"@, t13);
    lemma_p_ext(v.extension, t14);
    lemma_p_lit("}"@, rest);
    assert(p_appointment(t0) == Some((AppointmentV { status: v.status, service_category: v.service_category, specialty: v.specialty, start: v.start, end: v.end, description: v.description, extension: v.extension }, rest)));
    assert(AppointmentV { status: v.status, service_category: v.service_category, specialty: v.specialty, start: v.start, end: v.end, description: v.description, extension: v.extension } =~= v);
}

pub fn write_appointment(out: &mut Vec<char>, x: &FhirAppointment) -> (u: ())
    ensures
        final(out)@ == old(out)@ + appointment_json(x@),
{
    push_lit(out, "{\"status\":");
    write_jstr(out, x.status.to_str());
    push_lit(out, ",\"serviceCategory\":");
    write_jstr(out, self_str(&x.service_category));
    push_lit(out, ",\"specialty\":");
    write_jstr(out, self_str(&x.specialty.0));
    push_lit(out, ",\"start\":");
    write_jstr(out, self_str(&x.start.0));
    push_lit(out, ",\"end\":");
    write_jstr(out, self_str(&x.end.0));
    push_lit(out, ",\"description\":");
    write_opt_jstr(out, &x.description);
    push_lit(out, ",\"extension\":");
    write_ext(out, &x.extension);
    push_lit(out, "}");
    proof {
        vstd::seq_lib::lemma_concat_associative(old(out)@, "{\"status\":"@, jstr(appt_status_code(x@.status)));
        vstd::seq_lib::lemma_concat_associative(old(out)@, "{\"status\":"@ + jstr(appt_status_code(x@.status)), ",\"serviceCategory\":"@);
        vstd::seq_lib::lemma_concat_associative(old(out)@, "{\"status\":"@ + jstr(appt_status_code(x@.status)) + ",\"serviceCategory\":"@, jstr(x@.service_category));
        vstd::seq_lib::lemma_concat_associative(old(out)@, "{\"status\":"@ + jstr(appt_status_code(x@.status)) + ",\"serviceCategory\":"@ + jstr(x@.service_category), ",\"specialty\":"@);
        vstd::seq_lib::lemma_concat_associative(old(out)@, "{\"status\":"@ + jstr(appt_status_code(x@.status)) + ",\"serviceCategory\":"@ + jstr(x@.service_category) + ",\"specialty\":"@, jstr(x@.specialty));
        vstd::seq_lib::lemma_concat_associative(old(out)@, "{\"status\":"@ + jstr(appt_status_code(x@.status)) + ",\"serviceCategory\":"@ + jstr(x@.service_category) + ",\"specialty\":"@ + jstr(x@.specialty), ",\"start\":"@);
        vstd::seq_lib::lemma_concat_associative(old(out)@, "{\"status\":"@ + jstr(appt_status_code(x@.status)) + ",\"serviceCategory\":"@ + jstr(x@.service_category) + ",\"specialty\":"@ + jstr(x@.specialty) + ",\"start\":"@, jstr(x@.start));
        vstd::seq_lib::lemma_concat_associative(old(out)@, "{\"status\":"@ + jstr(appt_status_code(x@.status)) + ",\"serviceCategory\":"@ + jstr(x@.service_category) + ",\"specialty\":"@ + jstr(x@.specialty) + ",\"start\":"@ + jstr(x@.start), ",\"end\":"@);
        vstd::seq_lib::lemma_concat_associative(old(out)@, "{\"status\":"@ + jstr(appt_status_code(x@.status)) + ",\"serviceCategory\":"@ + jstr(x@.service_category) + ",\"specialty\":"@ + jstr(x@.specialty) + ",\"start\":"@ + jstr(x@.start) + ",\"end\":"@, jstr(x@.end));
        vstd::seq_lib::lemma_concat_associative(old(out)@, "{\"status\":"@ + jstr(appt_status_code(x@.status)) + ",\"serviceCategory\":"@ + jstr(x@.service_category) + ",\"specialty\":"@ + jstr(x@.specialty) + ",\"start\":"@ + jstr(x@.start) + ",\"end\":"@ + jstr(x@.end), ",\"description\":"@);
        vstd::seq_lib::lemma_concat_associative(old(out)@, "{\"status\":"@ + jstr(appt_status_code(x@.status)) + ",\"serviceCategory\":"@ + jstr(x@.service_category) + ",\"specialty\":"@ + jstr(x@.specialty) + ",\"start\":"@ + jstr(x@.start) + ",\"end\":"@ + jstr(x@.end) + ",\"description\":"@, jopt(x@.description, jstr_f()));
        vstd::seq_lib::lemma_concat_associative(old(out)@, "{\"status\":"@ + jstr(appt_status_code(x@.status)) + ",\"serviceCategory\":"@ + jstr(x@.service_category) + ",\"specialty\":"@ + jstr(x@.specialty) + ",\"start\":"@ + jstr(x@.start) + ",\"end\":"@ + jstr(x@.end) + ",\"description\":"@ + jopt(x@.description, jstr_f()), ",\"extension\":"@);
        vstd::seq_lib::lemma_concat_associative(old(out)@, "{\"status\":"@ + jstr(appt_status_code(x@.status)) + ",\"serviceCategory\":"@ + jstr(x@.service_category) + ",\"specialty\":"@ + jstr(x@.specialty) + ",\"start\":"@ + jstr(x@.start) + ",\"end\":"@ + jstr(x@.end) + ",\"description\":"@ + jopt(x@.description, jstr_f()) + ",\"extension\":"@, jext(x@.extension));
        vstd::seq_lib::lemma_concat_associative(old(out)@, "{\"status\":"@ + jstr(appt_status_code(x@.status)) + ",\"serviceCategory\":"@ + jstr(x@.service_category) + ",\"specialty\":"@ + jstr(x@.specialty) + ",\"start\":"@ + jstr(x@.start) + ",\"end\":"@ + jstr(x@.end) + ",\"description\":"@ + jopt(x@.description, jstr_f()) + ",\"extension\":"@ + jext(x@.extension), "}"@);
        assert(out@ == old(out)@ + appointment_json(x@));
    }
}

pub fn parse_appointment(s: &Vec<char>, i: usize) -> (r: Option<(FhirAppointment, usize)>)
    requires
        i <= s@.len(),
    ensures
        match r {
            Some(p) => p.1 <= s@.len() && p_appointment(s@.skip(i as int)) == Some(
                (p.0@, s@.skip(p.1 as int)),
            ) && appointment_wf(p.0@),
            None => p_appointment(s@.skip(i as int)) is None,
        },
{
    let j = match expect_lit(s, i, "{\"status\":") {
        Some(j) => j,
        None => {
            return None;
        },
    };
    let (x_status, j) = match parse_appt_status(s, j) {
        Some(x) => x,
        None => {
            return None;
        },
    };
    let j = match expect_lit(s, j, ",\"serviceCategory\":") {
        Some(j) => j,
        None => {
            return None;
        },
    };
    let (x_service_category, j) = match parse_jstr(s, j) {
        Some(x) => x,
        None => {
            return None;
        },
    };
    let j = match expect_lit(s, j, ",\"specialty\":") {
        Some(j) => j,
        None => {
            return None;
        },
    };
    let (x_specialty, j) = match parse_jstr(s, j) {
        Some(x) => x,
        None => {
            return None;
        },
    };
    let j = match expect_lit(s, j, ",\"start\":") {
        Some(j) => j,
        None => {
            return None;
        },
    };
    let (x_start, j) = match parse_jstr(s, j) {
        Some(x) => x,
        None => {
            return None;
        },
    };
    let j = match expect_lit(s, j, ",\"end\":") {
        Some(j) => j,
        None => {
            return None;
        },
    };
    let (x_end, j) = match parse_jstr(s, j) {
        Some(x) => x,
        None => {
            return None;
        },
    };
    let j = match expect_lit(s, j, ",\"description\":") {
        Some(j) => j,
        None => {
            return None;
        },
    };
    let (x_description, j) = match parse_opt_jstr(s, j) {
        Some(x) => x,
        None => {
            return None;
        },
    };
    let j = match expect_lit(s, j, ",\"extension\":") {
        Some(j) => j,
        None => {
            return None;
        },
    };
    let (x_extension, j) = match parse_ext(s, j) {
        Some(x) => x,
        None => {
            return None;
        },
    };
    let j = match expect_lit(s, j, "}") {
        Some(j) => j,
        None => {
            return None;
        },
    };
    let ret = FhirAppointment {
        status: x_status,
        service_category: chars_to_string(x_service_category),
        specialty: FhirSpecialty(chars_to_string(x_specialty)),
        start: FhirInstant(chars_to_string(x_start)),
        end: FhirInstant(chars_to_string(x_end)),
        description: x_description,
        extension: x_extension,
    };
    proof {
        assert(ret@ =~= AppointmentV {
            status: x_status,
            service_category: x_service_category@,
            specialty: x_specialty@,
            start: x_start@,
            end: x_end@,
            description: opt_str_view(x_description),
            extension: val_opt_view(x_extension),
        });
    }
    Some((ret, j))
}

/// Whole-text parsing of an appointment.
pub open spec fn appointment_parse(s: Seq<char>) -> Option<AppointmentV> {
    match p_appointment(s) {
        Some((v, r)) => if r.len() == 0 {
            Some(v)
        } else {
            None
        },
        None => None,
    }
}

/// Well-formedness of an appointment view: the extension payload it carries,
/// if any, reparses to a value with the same canonical text.
pub open spec fn appointment_wf(v: AppointmentV) -> bool {
    v.extension matches Some(t) ==> reparses(t)
}

impl FhirAppointment {
    pub fn new(
        status: FhirAppointmentStatus,
        service_category: String,
        specialty: FhirSpecialty,
        start: FhirInstant,
        end: FhirInstant,
        description: Option<String>,
        extension: Option<Value>,
    ) -> (r: Self)
        ensures
            r@.status == status,
            r@.service_category == service_category@,
            r@.specialty == specialty@,
            r@.start == start@,
            r@.end == end@,
            r@.description == opt_str_view(description),
            r@.extension == val_opt_view(extension),
    {
        FhirAppointment { status, service_category, specialty, start, end, description, extension }
    }

    /// The opaque extension payload, if any.
    pub fn get_extension(&self) -> (r: &Option<Value>)
        ensures
            val_opt_view(*r) == self@.extension,
    {
        &self.extension
    }

    pub fn get_start(&self) -> (r: &FhirInstant)
        ensures
            r@ == self@.start,
    {
        &self.start
    }

    pub fn get_end(&self) -> (r: &FhirInstant)
        ensures
            r@ == self@.end,
    {
        &self.end
    }

    pub fn get_specialty(&self) -> (r: &FhirSpecialty)
        ensures
            r@ == self@.specialty,
    {
        &self.specialty
    }

    pub fn get_description(&self) -> (r: Option<String>)
        ensures
            opt_str_view(r) == self@.description,
    {
        dup_opt_string(&self.description)
    }

    /// Move the appointment through its lifecycle; legal before signing.
    pub fn change_status(&mut self, status: FhirAppointmentStatus) -> (u: ())
        ensures
            final(self)@ == (AppointmentV { status, ..old(self)@ }),
    {
        self.status = status;
        proof {
            assert(self@ =~= (AppointmentV { status, ..old(self)@ }));
        }
    }

    pub fn get_status(&self) -> (r: &FhirAppointmentStatus)
        ensures
            *r == self@.status,
    {
        &self.status
    }

    pub fn get_service_category(&self) -> (r: &String)
        ensures
            r@ == self@.service_category,
    {
        &self.service_category
    }
}

impl FhirResource for FhirAppointment {
    open spec fn kind_spec() -> u32 {
        NOSTR_KIND_APPOINTMENT
    }

    open spec fn rtype_spec() -> Seq<char> {
        "Appointment"@
    }

    open spec fn json_of(v: AppointmentV) -> Seq<char> {
        appointment_json(v)
    }

    open spec fn parse_of(s: Seq<char>) -> Option<AppointmentV> {
        appointment_parse(s)
    }

    open spec fn div_of(v: AppointmentV) -> Seq<char> {
        match v.description {
            Some(d) => d,
            None => Seq::empty(),
        }
    }

    open spec fn wf(v: AppointmentV) -> bool {
        appointment_wf(v)
    }

    proof fn lemma_roundtrip(v: AppointmentV) {
        lemma_p_appointment(v, Seq::empty());
        assert(appointment_json(v) + Seq::<char>::empty() =~= appointment_json(v));
    }

    proof fn lemma_json_shape(v: AppointmentV) {
        reveal_strlit("{\"status\":");
        assert(appointment_json(v)[0] == "{\"status\":"@[0]);
        assert(appointment_json(v)[1] == "{\"status\":"@[1]);
    }

    fn nostr_kind(&self) -> (r: u32) {
        NOSTR_KIND_APPOINTMENT
    }

    fn resource_type(&self) -> (r: &str) {
        "Appointment"
    }

    fn text(&self) -> (r: FhirText) {
        match &self.description {
            Some(d) => FhirText::new(d.clone()),
            None => {
                let empty = String::new();
                proof {
                    assert(empty@ =~= Seq::<char>::empty());
                }
                FhirText::new(empty)
            },
        }
    }

    fn to_json(&self) -> (r: Vec<char>) {
        let mut out: Vec<char> = Vec::new();
        write_appointment(&mut out, self);
        proof {
            assert(Seq::<char>::empty() + appointment_json(self@) =~= appointment_json(self@));
        }
        out
    }

    fn from_json(s: &Vec<char>) -> (r: Option<Self>) {
        proof {
            assert(s@.skip(0) =~= s@);
        }
        match parse_appointment(s, 0) {
            Some((x, j)) => {
                if j == s.len() {
                    proof {
                        assert(s@.skip(j as int).len() == 0);
                    }
                    Some(x)
                } else {
                    proof {
                        assert(s@.skip(j as int).len() != 0);
                    }
                    None
                }
            },
            None => None,
        }
    }

    fn dup(&self) -> (r: Self) {
        let r = FhirAppointment {
            status: self.status,
            service_category: self.service_category.clone(),
            specialty: FhirSpecialty(self.specialty.0.clone()),
            start: dup_instant(&self.start),
            end: dup_instant(&self.end),
            description: dup_opt_string(&self.description),
            extension: match &self.extension {
                None => None,
                Some(v) => Some(v.clone()),
            },
        };
        proof {
            assert(r@ =~= self@);
        }
        r
    }
}

} // verus!
