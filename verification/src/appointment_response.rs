//! The AppointmentResponse resource: a reply to an appointment carrying the
//! original window, the responding actor as a reference to a practitioner,
//! and the participation status, bound to protocol kind 2003. Its FHIR tag is
//! the literal `Appointment`, as existing consumers of the wire format rely
//! on that spelling.

use vstd::prelude::*;
use serde_json::Value;
use crate::jsontext::{jstr, p_jstr, lemma_p_jstr, parse_jstr, write_jstr, p_lit, lemma_p_lit,
    expect_lit, push_lit, jopt, p_opt, lemma_p_opt_none, lemma_p_opt_some, jarr, p_arr, jstr_f,
    pf_jstr, jbool, p_bool, lemma_p_bool, parse_bool, write_bool};
use crate::jsonval::{chars_to_string, value_text, val_opt_view, reparses, jext, p_ext,
    lemma_p_ext, write_ext, parse_ext};
use crate::valuesets::{FhirAppointmentStatus, FhirAppointmentResponseStatus, resp_status_code,
    p_resp_status, parse_resp_status, lemma_resp_status_roundtrip};
use crate::datatypes::{FhirInstant, opt_str_view, lemma_p_opt_jstr, write_opt_jstr,
    parse_opt_jstr, dup_instant, dup_opt_string, self_str};
use crate::fhir_trait::{FhirResource, FhirText, FhirReference, RefV, FhirIdentifier, f_ident,
    pf_ident, write_ident_arr, parse_ident_arr, lemma_p_arr_ident};
use crate::practitioner::{FhirPractitioner, PractitionerV, practitioner_json, practitioner_wf,
    f_practitioner,
    pf_practitioner, lemma_p_practitioner, write_practitioner, parse_practitioner};
use crate::appointment::{FhirAppointment, AppointmentV, appointment_json, p_appointment,
    lemma_p_appointment, write_appointment, parse_appointment, appointment_wf};
use crate::consts::NOSTR_KIND_APPOINTMENT_RESPONSE;

verus! {

/// Well-formedness of a practitioner view carried inside a reference.
pub open spec fn prac_wf(p: PractitionerV) -> bool {
    practitioner_wf(p)
}

pub open spec fn opt_prac_view(o: Option<FhirPractitioner>) -> Option<PractitionerV> {
    match o {
        None => None,
        Some(x) => Some(x@),
    }
}

pub proof fn lemma_p_opt_practitioner(o: Option<PractitionerV>, rest: Seq<char>)
    requires
        o matches Some(p) ==> prac_wf(p),
    ensures
        p_opt(jopt(o, f_practitioner()) + rest, pf_practitioner()) == Some((o, rest)),
{
    match o {
        None => {
            lemma_p_opt_none(rest, pf_practitioner());
        },
        Some(p) => {
            lemma_p_practitioner(p, rest);
            reveal_strlit("{\"name\":");
            assert(practitioner_json(p)[0] == "{\"name\":"@[0]);
            lemma_p_opt_some(p, rest, f_practitioner(), pf_practitioner());
        },
    }
}

pub fn write_opt_practitioner(out: &mut Vec<char>, o: &Option<FhirPractitioner>) -> (u: ())
    ensures
        final(out)@ == old(out)@ + jopt(opt_prac_view(*o), f_practitioner()),
{
    match o {
        None => {
            push_lit(out, "null");
        },
        Some(x) => {
            write_practitioner(out, x);
        },
    }
}

pub fn parse_opt_practitioner(s: &Vec<char>, i: usize) -> (r: Option<
    (Option<FhirPractitioner>, usize),
>)
    requires
        i <= s@.len(),
    ensures
        match r {
            Some(p) => p.1 <= s@.len() && p_opt(s@.skip(i as int), pf_practitioner()) == Some(
                (opt_prac_view(p.0), s@.skip(p.1 as int)),
            ) && (p.0 matches Some(x) ==> practitioner_wf(x@)),
            None => p_opt(s@.skip(i as int), pf_practitioner()) is None,
        },
{
    proof {
        reveal_strlit("null");
    }
    match expect_lit(s, i, "null") {
        Some(j) => Some((None, j)),
        None => match parse_practitioner(s, i) {
            Some((x, j)) => Some((Some(x), j)),
            None => None,
        },
    }
}

/// Well-formedness of a reference view: the practitioner it carries, if any,
/// is well-formed.
pub open spec fn ref_prac_wf(v: RefV<PractitionerV>) -> bool {
    v.reference_type matches Some(p) ==> prac_wf(p)
}
pub open spec fn ref_prac_json(v: RefV::<PractitionerV>) -> Seq<char> {
    "{\"reference\":"@ + jstr(v.reference) + ",\"identifier\":"@ + jarr(v.identifier, f_ident()) + ",\"display\":"@ + jstr(v.display) + ",\"type\":"@ + jopt(v.reference_type, f_practitioner()) + "}"@
}

pub open spec fn f_ref_prac() -> spec_fn(RefV::<PractitionerV>) -> Seq<char> {
    |v: RefV::<PractitionerV>| ref_prac_json(v)
}

pub open spec fn pf_ref_prac() -> spec_fn(Seq<char>) -> Option<(RefV::<PractitionerV>, Seq<char>)> {
    |s: Seq<char>| p_ref_prac(s)
}

pub open spec fn p_ref_prac(s: Seq<char>) -> Option<(RefV::<PractitionerV>, Seq<char>)> {
    match p_lit(s, "{\"reference\":"@) {
        Some(s1) => match p_jstr(s1) {
            Some((x_reference, s2)) => match p_lit(s2, ",\"identifier\":"@) {
                Some(s3) => match p_arr(s3, pf_ident()) {
                    Some((x_identifier, s4)) => match p_lit(s4, ",\"display\":"@) {
                        Some(s5) => match p_jstr(s5) {
                            Some((x_display, s6)) => match p_lit(s6, ",\"type\":"@) {
                                Some(s7) => match p_opt(s7, pf_practitioner()) {
                                    Some((x_reference_type, s8)) => match p_lit(s8, "}"@) {
                                        Some(s9) => Some((
                                            RefV::<PractitionerV> {
                                                reference: x_reference,
                                                identifier: x_identifier,
                                                display: x_display,
                                                reference_type: x_reference_type,
                                            },
                                            s9,
                                        )),
                                        None => None,
                                    },
                                    None => None,
                                },
                                None => None,
                            },
                            None => None,
                        },
                        None => None,
                    },
                    None => None,
                },
                None => None,
            },
            None => None,
        },
        None => None,
    }
}

pub proof fn lemma_p_ref_prac(v: RefV::<PractitionerV>, rest: Seq<char>)
    requires
        ref_prac_wf(v),
    ensures
        p_ref_prac(ref_prac_json(v) + rest) == Some((v, rest)),
{
    let c1 = jstr(v.reference);
    let c2 = jarr(v.identifier, f_ident());
    let c3 = jstr(v.display);
    let c4 = jopt(v.reference_type, f_practitioner());
    let t8 = "}"@ + rest;
    let t7 = c4 + t8;
    let t6 = ",\"type\":"@ + t7;
    let t5 = c3 + t6;
    let t4 = ",\"display\":"@ + t5;
    let t3 = c2 + t4;
    let t2 = ",\"identifier\":"@ + t3;
    let t1 = c1 + t2;
    let t0 = "{\"reference\":"@ + t1;
    vstd::seq_lib::lemma_concat_associative("{\"reference\":"@ + c1 + ",\"identifier\":"@ + c2 + ",\"display\":"@ + c3 + ",\"type\":"@ + c4, "}"@, rest);
    vstd::seq_lib::lemma_concat_associative("{\"reference\":"@ + c1 + ",\"identifier\":"@ + c2 + ",\"display\":"@ + c3 + ",\"type\":"@, c4, t8);
    vstd::seq_lib::lemma_concat_associative("{\"reference\":"@ + c1 + ",\"identifier\":"@ + c2 + ",\"display\":"@ + c3, ",\"type\":"@, t7);
    vstd::seq_lib::lemma_concat_associative("{\"reference\":"@ + c1 + ",\"identifier\":"@ + c2 + ",\"display\":"@, c3, t6);
    vstd::seq_lib::lemma_concat_associative("{\"reference\":"@ + c1 + ",\"identifier\":"@ + c2, ",\"display\":"@, t5);
    vstd::seq_lib::lemma_concat_associative("{\"reference\":"@ + c1 + ",\"identifier\":"@, c2, t4);
    vstd::seq_lib::lemma_concat_associative("{\"reference\":"@ + c1, ",\"identifier\":"@, t3);
    vstd::seq_lib::lemma_concat_associative("{\"reference\":"@, c1, t2);
    assert(ref_prac_json(v) + rest == t0);
    lemma_p_lit("{\"reference\":"@, t1);
    lemma_p_jstr(v.reference, t2);
    lemma_p_lit(",\"identifier\":"@, t3);
    lemma_p_arr_ident(v.identifier, t4);
    lemma_p_lit(",\"display\":"@, t5);
    lemma_p_jstr(v.display, t6);
    lemma_p_lit(",\"type\":"@, t7);
    lemma_p_opt_practitioner(v.reference_type, t8);
    lemma_p_lit("}"@, rest);
    assert(p_ref_prac(t0) == Some((RefV::<PractitionerV> { reference: v.reference, identifier: v.identifier, display: v.display, reference_type: v.reference_type }, rest)));
    assert(RefV::<PractitionerV> { reference: v.reference, identifier: v.identifier, display: v.display, reference_type: v.reference_type } =~= v);
}

pub fn write_ref_prac(out: &mut Vec<char>, x: &FhirReference::<FhirPractitioner>) -> (u: ())
    ensures
        final(out)@ == old(out)@ + ref_prac_json(x@),
{
    push_lit(out, "{\"reference\":");
    write_jstr(out, self_str(&x.reference));
    push_lit(out, ",\"identifier\":");
    write_ident_arr(out, &x.identifier);
    push_lit(out, ",\"display\":");
    write_jstr(out, self_str(&x.display));
    push_lit(out, ",\"type\":");
    write_opt_practitioner(out, &x.reference_type);
    push_lit(out, "}");
    proof {
        vstd::seq_lib::lemma_concat_associative(old(out)@, "{\"reference\":"@, jstr(x@.reference));
        vstd::seq_lib::lemma_concat_associative(old(out)@, "{\"reference\":"@ + jstr(x@.reference), ",\"identifier\":"@);
        vstd::seq_lib::lemma_concat_associative(old(out)@, "{\"reference\":"@ + jstr(x@.reference) + ",\"identifier\":"@, jarr(x@.identifier, f_ident()));
        vstd::seq_lib::lemma_concat_associative(old(out)@, "{\"reference\":"@ + jstr(x@.reference) + ",\"identifier\":"@ + jarr(x@.identifier, f_ident()), ",\"display\":"@);
        vstd::seq_lib::lemma_concat_associative(old(out)@, "{\"reference\":"@ + jstr(x@.reference) + ",\"identifier\":"@ + jarr(x@.identifier, f_ident()) + ",\"display\":"@, jstr(x@.display));
        vstd::seq_lib::lemma_concat_associative(old(out)@, "{\"reference\":"@ + jstr(x@.reference) + ",\"identifier\":"@ + jarr(x@.identifier, f_ident()) + ",\"display\":"@ + jstr(x@.display), ",\"type\":"@);
        vstd::seq_lib::lemma_concat_associative(old(out)@, "{\"reference\":"@ + jstr(x@.reference) + ",\"identifier\":"@ + jarr(x@.identifier, f_ident()) + ",\"display\":"@ + jstr(x@.display) + ",\"type\":"@, jopt(x@.reference_type, f_practitioner()));
        vstd::seq_lib::lemma_concat_associative(old(out)@, "{\"reference\":"@ + jstr(x@.reference) + ",\"identifier\":"@ + jarr(x@.identifier, f_ident()) + ",\"display\":"@ + jstr(x@.display) + ",\"type\":"@ + jopt(x@.reference_type, f_practitioner()), "}"@);
        assert(out@ == old(out)@ + ref_prac_json(x@));
    }
}

pub fn parse_ref_prac(s: &Vec<char>, i: usize) -> (r: Option<(FhirReference::<FhirPractitioner>, usize)>)
    requires
        i <= s@.len(),
    ensures
        match r {
            Some(p) => p.1 <= s@.len() && p_ref_prac(s@.skip(i as int)) == Some(
                (p.0@, s@.skip(p.1 as int)),
            ) && ref_prac_wf(p.0@),
            None => p_ref_prac(s@.skip(i as int)) is None,
        },
{
    let j = match expect_lit(s, i, "{\"reference\":") {
        Some(j) => j,
        None => {
            return None;
        },
    };
    let (x_reference, j) = match parse_jstr(s, j) {
        Some(x) => x,
        None => {
            return None;
        },
    };
    let j = match expect_lit(s, j, ",\"identifier\":") {
        Some(j) => j,
        None => {
            return None;
        },
    };
    let (x_identifier, j) = match parse_ident_arr(s, j) {
        Some(x) => x,
        None => {
            return None;
        },
    };
    let j = match expect_lit(s, j, ",\"display\":") {
        Some(j) => j,
        None => {
            return None;
        },
    };
    let (x_display, j) = match parse_jstr(s, j) {
        Some(x) => x,
        None => {
            return None;
        },
    };
    let j = match expect_lit(s, j, ",\"type\":") {
        Some(j) => j,
        None => {
            return None;
        },
    };
    let (x_reference_type, j) = match parse_opt_practitioner(s, j) {
        Some(x) => x,
        None => {
            return None;
        },
    };
    let j = match expect_lit(s, j, "}") {
        Some(j) => j,
        None => {
            return None;
        },
    };
    let ret = FhirReference::<FhirPractitioner> {
        reference: chars_to_string(x_reference),
        identifier: x_identifier,
        display: chars_to_string(x_display),
        reference_type: x_reference_type,
    };
    proof {
        assert(ret@ =~= RefV::<PractitionerV> {
            reference: x_reference@,
            identifier: x_identifier@.map_values(|e: FhirIdentifier| e@),
            display: x_display@,
            reference_type: opt_prac_view(x_reference_type),
        });
    }
    Some((ret, j))
}
/// A reply to an appointment.
#[derive(Debug, Clone, PartialEq, Eq)]
pub struct FhirAppointmentResponse {
    appointment: FhirAppointment,
    start: FhirInstant,
    end: FhirInstant,
    actor: FhirReference<FhirPractitioner>,
    participant_status: FhirAppointmentResponseStatus,
    proposed_new_time: bool,
    comment: Option<String>,
    extension: Option<Value>,
}

#[verifier::ext_equal]
pub ghost struct ResponseV {
    pub appointment: AppointmentV,
    pub start: Seq<char>,
    pub end: Seq<char>,
    pub actor: RefV<PractitionerV>,
    pub participant_status: FhirAppointmentResponseStatus,
    pub proposed_new_time: bool,
    pub comment: Option<Seq<char>>,
    pub extension: Option<Seq<char>>,
}

impl View for FhirAppointmentResponse {
    type V = ResponseV;

    closed spec fn view(&self) -> ResponseV {
        ResponseV {
            appointment: self.appointment@,
            start: self.start@,
            end: self.end@,
            actor: self.actor@,
            participant_status: self.participant_status,
            proposed_new_time: self.proposed_new_time,
            comment: opt_str_view(self.comment),
            extension: val_opt_view(self.extension),
        }
    }
}

pub open spec fn response_json(v: ResponseV) -> Seq<char> {
    "{\"appointment\":"@ + appointment_json(v.appointment) + ",\"start\":"@ + jstr(v.start) + ",\"end\":"@ + jstr(v.end) + ",\"actor\":"@ + ref_prac_json(v.actor) + ",\"participantStatus\":"@ + jstr(resp_status_code(v.participant_status)) + ",\"proposedNewTime\":"@ + jbool(v.proposed_new_time) + ",\"comment\":"@ + jopt(v.comment, jstr_f()) + ",\"extension\":"@ + jext(v.extension) + "}"@
}

pub open spec fn f_response() -> spec_fn(ResponseV) -> Seq<char> {
    |v: ResponseV| response_json(v)
}

pub open spec fn pf_response() -> spec_fn(Seq<char>) -> Option<(ResponseV, Seq<char>)> {
    |s: Seq<char>| p_response(s)
}

pub open spec fn p_response(s: Seq<char>) -> Option<(ResponseV, Seq<char>)> {
    match p_lit(s, "{\"appointment\":"@) {
        Some(s1) => match p_appointment(s1) {
            Some((x_appointment, s2)) => match p_lit(s2, ",\"start\":"@) {
                Some(s3) => match p_jstr(s3) {
                    Some((x_start, s4)) => match p_lit(s4, ",\"end\":"@) {
                        Some(s5) => match p_jstr(s5) {
                            Some((x_end, s6)) => match p_lit(s6, ",\"actor\":"@) {
                                Some(s7) => match p_ref_prac(s7) {
                                    Some((x_actor, s8)) => match p_lit(s8, ",\"participantStatus\":"@) {
                                        Some(s9) => match p_resp_status(s9) {
                                            Some((x_participant_status, s10)) => match p_lit(s10, ",\"proposedNewTime\":"@) {
                                                Some(s11) => match p_bool(s11) {
                                                    Some((x_proposed_new_time, s12)) => match p_lit(s12, ",\"comment\":"@) {
                                                        Some(s13) => match p_opt(s13, pf_jstr()) {
                                                            Some((x_comment, s14)) => match p_lit(s14, ",\"extension\":"@) {
                                                                Some(s15) => match p_ext(s15) {
                                                                    Some((x_extension, s16)) => match p_lit(s16, "}"@) {
                                                                        Some(s17) => Some((
                                                                            ResponseV {
                                                                                appointment: x_appointment,
                                                                                start: x_start,
                                                                                end: x_end,
                                                                                actor: x_actor,
                                                                                participant_status: x_participant_status,
                                                                                proposed_new_time: x_proposed_new_time,
                                                                                comment: x_comment,
                                                                                extension: x_extension,
                                                                            },
                                                                            s17,
                                                                        )),
                                                                        None => None,
                                                                    },
                                                                    None => None,
                                                                },
                                                                None => None,
                                                            },
                                                            None => None,
                                                        },
                                                        None => None,
                                                    },
                                                    None => None,
                                                },
                                                None => None,
                                            },
                                            None => None,
                                        },
                                        None => None,
                                    },
                                    None => None,
                                },
                                None => None,
                            },
                            None => None,
                        },
                        None => None,
                    },
                    None => None,
                },
                None => None,
            },
            None => None,
        },
        None => None,
    }
}

pub proof fn lemma_p_response(v: ResponseV, rest: Seq<char>)
    requires
        appointment_wf(v.appointment),
        ref_prac_wf(v.actor),
        v.extension matches Some(t) ==> reparses(t),
    ensures
        p_response(response_json(v) + rest) == Some((v, rest)),
{
    let c1 = appointment_json(v.appointment);
    let c2 = jstr(v.start);
    let c3 = jstr(v.end);
    let c4 = ref_prac_json(v.actor);
    let c5 = jstr(resp_status_code(v.participant_status));
    let c6 = jbool(v.proposed_new_time);
    let c7 = jopt(v.comment, jstr_f());
    let c8 = jext(v.extension);
    let t16 = "}"@ + rest;
    let t15 = c8 + t16;
    let t14 = ",\"extension\":"@ + t15;
    let t13 = c7 + t14;
    let t12 = ",\"comment\":"@ + t13;
    let t11 = c6 + t12;
    let t10 = ",\"proposedNewTime\":"@ + t11;
    let t9 = c5 + t10;
    let t8 = ",\"participantStatus\":"@ + t9;
    let t7 = c4 + t8;
    let t6 = ",\"actor\":"@ + t7;
    let t5 = c3 + t6;
    let t4 = ",\"end\":"@ + t5;
    let t3 = c2 + t4;
    let t2 = ",\"start\":"@ + t3;
    let t1 = c1 + t2;
    let t0 = "{\"appointment\":"@ + t1;
    vstd::seq_lib::lemma_concat_associative("{\"appointment\":"@ + c1 + ",\"start\":"@ + c2 + ",\"end\":"@ + c3 + ",\"actor\":"@ + c4 + ",\"participantStatus\":"@ + c5 + ",\"proposedNewTime\":"@ + c6 + ",\"comment\":"@ + c7 + ",\"extension\":"@ + c8, "}"@, rest);
    vstd::seq_lib::lemma_concat_associative("{\"appointment\":"@ + c1 + ",\"start\":"@ + c2 + ",\"end\":"@ + c3 + ",\"actor\":"@ + c4 + ",\"participantStatus\":"@ + c5 + ",\"proposedNewTime\":"@ + c6 + ",\"comment\":"@ + c7 + ",\"extension\":"@, c8, t16);
    vstd::seq_lib::lemma_concat_associative("{\"appointment\":"@ + c1 + ",\"start\":"@ + c2 + ",\"end\":"@ + c3 + ",\"actor\":"@ + c4 + ",\"participantStatus\":"@ + c5 + ",\"proposedNewTime\":"@ + c6 + ",\"comment\":"@ + c7, ",\"extension\":"@, t15);
    vstd::seq_lib::lemma_concat_associative("{\"appointment\":"@ + c1 + ",\"start\":"@ + c2 + ",\"end\":"@ + c3 + ",\"actor\":"@ + c4 + ",\"participantStatus\":"@ + c5 + ",\"proposedNewTime\":"@ + c6 + ",\"comment\":"@, c7, t14);
    vstd::seq_lib::lemma_concat_associative("{\"appointment\":"@ + c1 + ",\"start\":"@ + c2 + ",\"end\":"@ + c3 + ",\"actor\":"@ + c4 + ",\"participantStatus\":"@ + c5 + ",\"proposedNewTime\":"@ + c6, ",\"comment\":"@, t13);
    vstd::seq_lib::lemma_concat_associative("{\"appointment\":"@ + c1 + ",\"start\":"@ + c2 + ",\"end\":"@ + c3 + ",\"actor\":"@ + c4 + ",\"participantStatus\":"@ + c5 + ",\"proposedNewTime\":"@, c6, t12);
    vstd::seq_lib::lemma_concat_associative("{\"appointment\":"@ + c1 + ",\"start\":"@ + c2 + ",\"end\":"@ + c3 + ",\"actor\":"@ + c4 + ",\"participantStatus\":"@ + c5, ",\"proposedNewTime\":"@, t11);
    vstd::seq_lib::lemma_concat_associative("{\"appointment\":"@ + c1 + ",\"start\":"@ + c2 + ",\"end\":"@ + c3 + ",\"actor\":"@ + c4 + ",\"participantStatus\":"@, c5, t10);
    vstd::seq_lib::lemma_concat_associative("{\"appointment\":"@ + c1 + ",\"start\":"@ + c2 + ",\"end\":"@ + c3 + ",\"actor\":"@ + c4, ",\"participantStatus\":"@, t9);
    vstd::seq_lib::lemma_concat_associative("{\"appointment\":"@ + c1 + ",\"start\":"@ + c2 + ",\"end\":"@ + c3 + ",\"actor\":"@, c4, t8);
    vstd::seq_lib::lemma_concat_associative("{\"appointment\":"@ + c1 + ",\"start\":"@ + c2 + ",\"end\":"@ + c3, ",\"actor\":"@, t7);
    vstd::seq_lib::lemma_concat_associative("{\"appointment\":"@ + c1 + ",\"start\":"@ + c2 + ",\"end\":"@, c3, t6);
    vstd::seq_lib::lemma_concat_associative("{\"appointment\":"@ + c1 + ",\"start\":"@ + c2, ",\"end\":"@, t5);
    vstd::seq_lib::lemma_concat_associative("{\"appointment\":"@ + c1 + ",\"start\":"@, c2, t4);
    vstd::seq_lib::lemma_concat_associative("{\"appointment\":"@ + c1, ",\"start\":"@, t3);
    vstd::seq_lib::lemma_concat_associative("{\"appointment\":"@, c1, t2);
    assert(response_json(v) + rest == t0);
    lemma_p_lit("{\"appointment\":"@, t1);
    lemma_p_appointment(v.appointment, t2);
    lemma_p_lit(",\"start\":"@, t3);
    lemma_p_jstr(v.start, t4);
    lemma_p_lit(",\"end\":"@, t5);
    lemma_p_jstr(v.end, t6);
    lemma_p_lit(",\"actor\":"@, t7);
    lemma_p_ref_prac(v.actor, t8);
    lemma_p_lit(",\"participantStatus\":"@, t9);
    lemma_resp_status_roundtrip(v.participant_status, t10);
    lemma_p_lit(",\"proposedNewTime\":"@, t11);
    lemma_p_bool(v.proposed_new_time, t12);
    lemma_p_lit(",\"comment\":"@, t13);
    lemma_p_opt_jstr(v.comment, t14);
    lemma_p_lit(",\"extension\":"@, t15);
    lemma_p_ext(v.extension, t16);
    lemma_p_lit("}"@, rest);
    assert(p_response(t0) == Some((ResponseV { appointment: v.appointment, start: v.start, end: v.end, actor: v.actor, participant_status: v.participant_status, proposed_new_time: v.proposed_new_time, comment: v.comment, extension: v.extension }, rest)));
    assert(ResponseV { appointment: v.appointment, start: v.start, end: v.end, actor: v.actor, participant_status: v.participant_status, proposed_new_time: v.proposed_new_time, comment: v.comment, extension: v.extension } =~= v);
}

pub fn write_response(out: &mut Vec<char>, x: &FhirAppointmentResponse) -> (u: ())
    ensures
        final(out)@ == old(out)@ + response_json(x@),
{
    push_lit(out, "{\"appointment\":");
    write_appointment(out, &x.appointment);
    push_lit(out, ",\"start\":");
    write_jstr(out, self_str(&x.start.0));
    push_lit(out, ",\"end\":");
    write_jstr(out, self_str(&x.end.0));
    push_lit(out, ",\"actor\":");
    write_ref_prac(out, &x.actor);
    push_lit(out, ",\"participantStatus\":");
    write_jstr(out, x.participant_status.to_str());
    push_lit(out, ",\"proposedNewTime\":");
    write_bool(out, x.proposed_new_time);
    push_lit(out, ",\"comment\":");
    write_opt_jstr(out, &x.comment);
    push_lit(out, ",\"extension\":");
    write_ext(out, &x.extension);
    push_lit(out, "}");
    proof {
        vstd::seq_lib::lemma_concat_associative(old(out)@, "{\"appointment\":"@, appointment_json(x@.appointment));
        vstd::seq_lib::lemma_concat_associative(old(out)@, "{\"appointment\":"@ + appointment_json(x@.appointment), ",\"start\":"@);
        vstd::seq_lib::lemma_concat_associative(old(out)@, "{\"appointment\":"@ + appointment_json(x@.appointment) + ",\"start\":"@, jstr(x@.start));
        vstd::seq_lib::lemma_concat_associative(old(out)@, "{\"appointment\":"@ + appointment_json(x@.appointment) + ",\"start\":"@ + jstr(x@.start), ",\"end\":"@);
        vstd::seq_lib::lemma_concat_associative(old(out)@, "{\"appointment\":"@ + appointment_json(x@.appointment) + ",\"start\":"@ + jstr(x@.start) + ",\"end\":"@, jstr(x@.end));
        vstd::seq_lib::lemma_concat_associative(old(out)@, "{\"appointment\":"@ + appointment_json(x@.appointment) + ",\"start\":"@ + jstr(x@.start) + ",\"end\":"@ + jstr(x@.end), ",\"actor\":"@);
        vstd::seq_lib::lemma_concat_associative(old(out)@, "{\"appointment\":"@ + appointment_json(x@.appointment) + ",\"start\":"@ + jstr(x@.start) + ",\"end\":"@ + jstr(x@.end) + ",\"actor\":"@, ref_prac_json(x@.actor));
        vstd::seq_lib::lemma_concat_associative(old(out)@, "{\"appointment\":"@ + appointment_json(x@.appointment) + ",\"start\":"@ + jstr(x@.start) + ",\"end\":"@ + jstr(x@.end) + ",\"actor\":"@ + ref_prac_json(x@.actor), ",\"participantStatus\":"@);
        vstd::seq_lib::lemma_concat_associative(old(out)@, "{\"appointment\":"@ + appointment_json(x@.appointment) + ",\"start\":"@ + jstr(x@.start) + ",\"end\":"@ + jstr(x@.end) + ",\"actor\":"@ + ref_prac_json(x@.actor) + ",\"participantStatus\":"@, jstr(resp_status_code(x@.participant_status)));
        vstd::seq_lib::lemma_concat_associative(old(out)@, "{\"appointment\":"@ + appointment_json(x@.appointment) + ",\"start\":"@ + jstr(x@.start) + ",\"end\":"@ + jstr(x@.end) + ",\"actor\":"@ + ref_prac_json(x@.actor) + ",\"participantStatus\":"@ + jstr(resp_status_code(x@.participant_status)), ",\"proposedNewTime\":"@);
        vstd::seq_lib::lemma_concat_associative(old(out)@, "{\"appointment\":"@ + appointment_json(x@.appointment) + ",\"start\":"@ + jstr(x@.start) + ",\"end\":"@ + jstr(x@.end) + ",\"actor\":"@ + ref_prac_json(x@.actor) + ",\"participantStatus\":"@ + jstr(resp_status_code(x@.participant_status)) + ",\"proposedNewTime\":"@, jbool(x@.proposed_new_time));
        vstd::seq_lib::lemma_concat_associative(old(out)@, "{\"appointment\":"@ + appointment_json(x@.appointment) + ",\"start\":"@ + jstr(x@.start) + ",\"end\":"@ + jstr(x@.end) + ",\"actor\":"@ + ref_prac_json(x@.actor) + ",\"participantStatus\":"@ + jstr(resp_status_code(x@.participant_status)) + ",\"proposedNewTime\":"@ + jbool(x@.proposed_new_time), ",\"comment\":"@);
        vstd::seq_lib::lemma_concat_associative(old(out)@, "{\"appointment\":"@ + appointment_json(x@.appointment) + ",\"start\":"@ + jstr(x@.start) + ",\"end\":"@ + jstr(x@.end) + ",\"actor\":"@ + ref_prac_json(x@.actor) + ",\"participantStatus\":"@ + jstr(resp_status_code(x@.participant_status)) + ",\"proposedNewTime\":"@ + jbool(x@.proposed_new_time) + ",\"comment\":"@, jopt(x@.comment, jstr_f()));
        vstd::seq_lib::lemma_concat_associative(old(out)@, "{\"appointment\":"@ + appointment_json(x@.appointment) + ",\"start\":"@ + jstr(x@.start) + ",\"end\":"@ + jstr(x@.end) + ",\"actor\":"@ + ref_prac_json(x@.actor) + ",\"participantStatus\":"@ + jstr(resp_status_code(x@.participant_status)) + ",\"proposedNewTime\":"@ + jbool(x@.proposed_new_time) + ",\"comment\":"@ + jopt(x@.comment, jstr_f()), ",\"extension\":"@);
        vstd::seq_lib::lemma_concat_associative(old(out)@, "{\"appointment\":"@ + appointment_json(x@.appointment) + ",\"start\":"@ + jstr(x@.start) + ",\"end\":"@ + jstr(x@.end) + ",\"actor\":"@ + ref_prac_json(x@.actor) + ",\"participantStatus\":"@ + jstr(resp_status_code(x@.participant_status)) + ",\"proposedNewTime\":"@ + jbool(x@.proposed_new_time) + ",\"comment\":"@ + jopt(x@.comment, jstr_f()) + ",\"extension\":"@, jext(x@.extension));
        vstd::seq_lib::lemma_concat_associative(old(out)@, "{\"appointment\":"@ + appointment_json(x@.appointment) + ",\"start\":"@ + jstr(x@.start) + ",\"end\":"@ + jstr(x@.end) + ",\"actor\":"@ + ref_prac_json(x@.actor) + ",\"participantStatus\":"@ + jstr(resp_status_code(x@.participant_status)) + ",\"proposedNewTime\":"@ + jbool(x@.proposed_new_time) + ",\"comment\":"@ + jopt(x@.comment, jstr_f()) + ",\"extension\":"@ + jext(x@.extension), "}"@);
        assert(out@ == old(out)@ + response_json(x@));
    }
}

pub fn parse_response(s: &Vec<char>, i: usize) -> (r: Option<(FhirAppointmentResponse, usize)>)
    requires
        i <= s@.len(),
    ensures
        match r {
            Some(p) => p.1 <= s@.len() && p_response(s@.skip(i as int)) == Some(
                (p.0@, s@.skip(p.1 as int)),
            ) && response_wf(p.0@),
            None => p_response(s@.skip(i as int)) is None,
        },
{
    let j = match expect_lit(s, i, "{\"appointment\":") {
        Some(j) => j,
        None => {
            return None;
        },
    };
    let (x_appointment, j) = match parse_appointment(s, j) {
        Some(x) => x,
        None => {
            return None;
        },
    };
    let j = match expect_lit(s, j, ",\"start\":") {
        Some(j) => j,
        None => {
            return None;
        },
    };
    let (x_start, j) = match parse_jstr(s, j) {
        Some(x) => x,
        None => {
            return None;
        },
    };
    let j = match expect_lit(s, j, ",\"end\":") {
        Some(j) => j,
        None => {
            return None;
        },
    };
    let (x_end, j) = match parse_jstr(s, j) {
        Some(x) => x,
        None => {
            return None;
        },
    };
    let j = match expect_lit(s, j, ",\"actor\":") {
        Some(j) => j,
        None => {
            return None;
        },
    };
    let (x_actor, j) = match parse_ref_prac(s, j) {
        Some(x) => x,
        None => {
            return None;
        },
    };
    let j = match expect_lit(s, j, ",\"participantStatus\":") {
        Some(j) => j,
        None => {
            return None;
        },
    };
    let (x_participant_status, j) = match parse_resp_status(s, j) {
        Some(x) => x,
        None => {
            return None;
        },
    };
    let j = match expect_lit(s, j, ",\"proposedNewTime\":") {
        Some(j) => j,
        None => {
            return None;
        },
    };
    let (x_proposed_new_time, j) = match parse_bool(s, j) {
        Some(x) => x,
        None => {
            return None;
        },
    };
    let j = match expect_lit(s, j, ",\"comment\":") {
        Some(j) => j,
        None => {
            return None;
        },
    };
    let (x_comment, j) = match parse_opt_jstr(s, j) {
        Some(x) => x,
        None => {
            return None;
        },
    };
    let j = match expect_lit(s, j, ",\"extension\":") {
        Some(j) => j,
        None => {
            return None;
        },
    };
    let (x_extension, j) = match parse_ext(s, j) {
        Some(x) => x,
        None => {
            return None;
        },
    };
    let j = match expect_lit(s, j, "}") {
        Some(j) => j,
        None => {
            return None;
        },
    };
    let ret = FhirAppointmentResponse {
        appointment: x_appointment,
        start: FhirInstant(chars_to_string(x_start)),
        end: FhirInstant(chars_to_string(x_end)),
        actor: x_actor,
        participant_status: x_participant_status,
        proposed_new_time: x_proposed_new_time,
        comment: x_comment,
        extension: x_extension,
    };
    proof {
        assert(ret@ =~= ResponseV {
            appointment: x_appointment@,
            start: x_start@,
            end: x_end@,
            actor: x_actor@,
            participant_status: x_participant_status,
            proposed_new_time: x_proposed_new_time,
            comment: opt_str_view(x_comment),
            extension: val_opt_view(x_extension),
        });
    }
    Some((ret, j))
}

/// Whole-text parsing of an appointment response.
pub open spec fn response_parse(s: Seq<char>) -> Option<ResponseV> {
    match p_response(s) {
        Some((v, r)) => if r.len() == 0 {
            Some(v)
        } else {
            None
        },
        None => None,
    }
}

/// Well-formedness of a response view: its own extension, its appointment's
/// extension and the practitioner carried by its actor are all genuine.
pub open spec fn response_wf(v: ResponseV) -> bool {
    &&& appointment_wf(v.appointment)
    &&& ref_prac_wf(v.actor)
    &&& v.extension matches Some(t) ==> reparses(t)
}

/// The participation status a response derives from its appointment's status:
/// a booked appointment is accepted, a cancelled one declined, anything else
/// still needs action.
pub open spec fn derived_status(s: FhirAppointmentStatus) -> FhirAppointmentResponseStatus {
    match s {
        FhirAppointmentStatus::Booked => FhirAppointmentResponseStatus::Accepted,
        FhirAppointmentStatus::Cancelled => FhirAppointmentResponseStatus::Declined,
        _ => FhirAppointmentResponseStatus::NeedsAction,
    }
}

impl FhirAppointmentResponse {
    /// A response whose status derives from the appointment's status, and
    /// whose window is copied from the appointment.
    pub fn new(
        appointment: FhirAppointment,
        actor: FhirReference<FhirPractitioner>,
        comment: Option<String>,
        extension: Option<Value>,
    ) -> (r: Self)
        ensures
            r@.appointment == appointment@,
            r@.start == appointment@.start,
            r@.end == appointment@.end,
            r@.actor == actor@,
            r@.participant_status == derived_status(appointment@.status),
            r@.proposed_new_time == false,
            r@.comment == opt_str_view(comment),
            r@.extension == val_opt_view(extension),
    {
        let start = dup_instant(appointment.get_start());
        let end = dup_instant(appointment.get_end());
        let status = match appointment.get_status() {
            FhirAppointmentStatus::Booked => FhirAppointmentResponseStatus::Accepted,
            FhirAppointmentStatus::Cancelled => FhirAppointmentResponseStatus::Declined,
            _ => FhirAppointmentResponseStatus::NeedsAction,
        };
        FhirAppointmentResponse {
            appointment,
            start,
            end,
            actor,
            participant_status: status,
            proposed_new_time: false,
            comment,
            extension,
        }
    }

    /// A counter-proposal: tentative status, `proposedNewTime` set, and still
    /// the original appointment window; the new time lives in the comment or
    /// the extension.
    pub fn propose_new_time(
        appointment: FhirAppointment,
        actor: FhirReference<FhirPractitioner>,
        comment: Option<String>,
        extension: Option<Value>,
    ) -> (r: Self)
        ensures
            r@.appointment == appointment@,
            r@.start == appointment@.start,
            r@.end == appointment@.end,
            r@.actor == actor@,
            r@.participant_status == FhirAppointmentResponseStatus::Tentative,
            r@.proposed_new_time == true,
            r@.comment == opt_str_view(comment),
            r@.extension == val_opt_view(extension),
    {
        let start = dup_instant(appointment.get_start());
        let end = dup_instant(appointment.get_end());
        FhirAppointmentResponse {
            appointment,
            start,
            end,
            actor,
            participant_status: FhirAppointmentResponseStatus::Tentative,
            proposed_new_time: true,
            comment,
            extension,
        }
    }

    /// The opaque extension payload, if any.
    pub fn get_extension(&self) -> (r: &Option<Value>)
        ensures
            val_opt_view(*r) == self@.extension,
    {
        &self.extension
    }

    pub fn get_fhir_appointment(&self) -> (r: &FhirAppointment)
        ensures
            r@ == self@.appointment,
    {
        &self.appointment
    }

    pub fn get_fhir_actor(&self) -> (r: &FhirReference<FhirPractitioner>)
        ensures
            r@ == self@.actor,
    {
        &self.actor
    }

    pub fn get_start(&self) -> (r: &FhirInstant)
        ensures
            r@ == self@.start,
    {
        &self.start
    }

    pub fn get_end(&self) -> (r: &FhirInstant)
        ensures
            r@ == self@.end,
    {
        &self.end
    }

    pub fn status(&self) -> (r: FhirAppointmentResponseStatus)
        ensures
            r == self@.participant_status,
    {
        self.participant_status
    }

    pub fn get_comment(&self) -> (r: Option<String>)
        ensures
            opt_str_view(r) == self@.comment,
    {
        dup_opt_string(&self.comment)
    }
}

impl FhirResource for FhirAppointmentResponse {
    open spec fn kind_spec() -> u32 {
        NOSTR_KIND_APPOINTMENT_RESPONSE
    }

    open spec fn rtype_spec() -> Seq<char> {
        "Appointment"@
    }

    open spec fn json_of(v: ResponseV) -> Seq<char> {
        response_json(v)
    }

    open spec fn parse_of(s: Seq<char>) -> Option<ResponseV> {
        response_parse(s)
    }

    open spec fn div_of(v: ResponseV) -> Seq<char> {
        match v.comment {
            Some(d) => d,
            None => Seq::empty(),
        }
    }

    open spec fn wf(v: ResponseV) -> bool {
        response_wf(v)
    }

    proof fn lemma_roundtrip(v: ResponseV) {
        lemma_p_response(v, Seq::empty());
        assert(response_json(v) + Seq::<char>::empty() =~= response_json(v));
    }

    proof fn lemma_json_shape(v: ResponseV) {
        reveal_strlit("{\"appointment\":");
        assert(response_json(v)[0] == "{\"appointment\":"@[0]);
        assert(response_json(v)[1] == "{\"appointment\":"@[1]);
    }

    fn nostr_kind(&self) -> (r: u32) {
        NOSTR_KIND_APPOINTMENT_RESPONSE
    }

    fn resource_type(&self) -> (r: &str) {
        "Appointment"
    }

    fn text(&self) -> (r: FhirText) {
        match &self.comment {
            Some(d) => FhirText::new(d.clone()),
            None => {
                let empty = String::new();
                proof {
                    assert(empty@ =~= Seq::<char>::empty());
                }
                FhirText::new(empty)
            },
        }
    }

    fn to_json(&self) -> (r: Vec<char>) {
        let mut out: Vec<char> = Vec::new();
        write_response(&mut out, self);
        proof {
            assert(Seq::<char>::empty() + response_json(self@) =~= response_json(self@));
        }
        out
    }

    fn from_json(s: &Vec<char>) -> (r: Option<Self>) {
        proof {
            assert(s@.skip(0) =~= s@);
        }
        match parse_response(s, 0) {
            Some((x, j)) => {
                if j == s.len() {
                    proof {
                        assert(s@.skip(j as int).len() == 0);
                    }
                    Some(x)
                } else {
                    proof {
                        assert(s@.skip(j as int).len() != 0);
                    }
                    None
                }
            },
            None => None,
        }
    }

    fn dup(&self) -> (r: Self) {
        let r = FhirAppointmentResponse {
            appointment: self.appointment.dup(),
            start: dup_instant(&self.start),
            end: dup_instant(&self.end),
            actor: self.actor.dup(),
            participant_status: self.participant_status,
            proposed_new_time: self.proposed_new_time,
            comment: dup_opt_string(&self.comment),
            extension: match &self.extension {
                None => None,
                Some(v) => Some(v.clone()),
            },
        };
        proof {
            assert(r@ =~= self@);
        }
        r
    }
}

} // verus!
