use ignis_fhir::appointment::FhirAppointment;
use ignis_fhir::appointment_response::FhirAppointmentResponse;
use ignis_fhir::datatypes::{FhirContactPoint, FhirHumanName, FhirInstant};
use ignis_fhir::fhir_trait::{FhirError, FhirResource, IgnisResource};
use ignis_fhir::organization::FhirOrganization;
use ignis_fhir::practitioner::FhirPractitioner;
use ignis_fhir::valuesets::{
    FhirAppointmentResponseStatus, FhirAppointmentStatus, FhirOrganizationType, FhirSpecialty,
};
use nostro2::keypair::NostrKeypair;

fn sample_org() -> FhirOrganization {
    FhirOrganization::new(
        "Ignis Clinic".to_string(),
        FhirOrganizationType::Provider,
        vec![],
        "Primary care".to_string(),
    )
}

fn sample_practitioner() -> FhirPractitioner {
    FhirPractitioner::new(
        FhirHumanName::new_simple("Dr. Alice Rivera".to_string()),
        vec![
            FhirContactPoint::new_email("a@x".to_string()),
            FhirContactPoint::new_phone("555-1".to_string()),
        ],
    )
}

fn sample_appointment() -> FhirAppointment {
    FhirAppointment::new(
        FhirAppointmentStatus::Booked,
        "GP".to_string(),
        FhirSpecialty("General Practice".to_string()),
        FhirInstant("2025-01-10T09:00:00Z".to_string()),
        FhirInstant("2025-01-10T09:30:00Z".to_string()),
        Some("checkup".to_string()),
        None,
    )
}

fn json_of<T: FhirResource>(r: &T) -> String {
    r.to_json().into_iter().collect()
}

#[test]
fn organization_sign_and_reparse() {
    let org = sample_org();
    let k1 = NostrKeypair::generate(false);
    let mut env = IgnisResource::new(org, None, Some("wss://relay.one".to_string()));
    let note = env.sign_data(&k1);
    assert_eq!(note.kind, 2000);
    assert_eq!(note.pubkey, k1.public_key());
    assert_eq!(env.get_pubkey(), Some(k1.public_key()));
    assert_eq!(env.get_resource_id(), note.id.clone());
    let env2 = IgnisResource::<FhirOrganization>::from_signed_note(&note, None).unwrap();
    assert_eq!(env2.get_resource(), &sample_org());
    assert_eq!(env2.get_pubkey(), Some(k1.public_key()));
}

#[test]
fn practitioner_contacts_and_wire_key() {
    let p = sample_practitioner();
    assert_eq!(p.get_email().unwrap().value, "a@x");
    assert_eq!(p.get_phone().unwrap().value, "555-1");
    assert_eq!(p.text_name(), "Dr. Alice Rivera");
    let js = json_of(&p);
    // The contact array rides under the JSON key `type` on the wire.
    assert!(js.contains("\"type\":[{\"system\":\"Email\""));
    assert!(js.starts_with("{\"name\":{\"use\":\"Official\",\"text\":\"Dr. Alice Rivera\""));
    assert!(js.contains("\"family\":\"Dr. Alice Rivera\""));
}

#[test]
fn appointment_fhir_json_envelope() {
    let k1 = NostrKeypair::generate(false);
    let mut env = IgnisResource::new(
        sample_appointment(),
        None,
        Some("wss://relay.one".to_string()),
    );
    let note = env.sign_data(&k1);
    assert_eq!(note.kind, 2002);
    let id = env.get_resource_id().unwrap();
    let js = env.get_fhir_json().unwrap();
    assert!(js.starts_with("{\"resourceType\":\"Appointment\""));
    assert!(js.contains(&format!("\"id\":\"{}\"", id)));
    assert!(js.contains("\"identifier\":{\"system\":\"nostr:wss://relay.one\""));
    assert!(js.contains("\"text\":{\"status\":\"generated\""));
    assert!(js.contains("\"status\":\"Booked\""));
    assert!(js.contains("\"serviceCategory\":\"GP\""));
}

#[test]
fn response_derives_accepted_from_booked() {
    let k1 = NostrKeypair::generate(false);
    let mut prac_env = IgnisResource::new(
        sample_practitioner(),
        None,
        Some("wss://relay.one".to_string()),
    );
    prac_env.sign_data(&k1);
    let actor = prac_env.get_resource_reference().unwrap();
    let appt = sample_appointment();
    let response = FhirAppointmentResponse::new(appt, actor, None, None);
    assert_eq!(response.status(), FhirAppointmentResponseStatus::Accepted);
    assert_eq!(response.get_start().0, "2025-01-10T09:00:00Z");
    assert_eq!(response.get_end().0, "2025-01-10T09:30:00Z");
    let js = json_of(&response);
    assert!(js.contains("\"participantStatus\":\"Accepted\""));
    assert!(js.contains("\"proposedNewTime\":false"));
}

#[test]
fn response_derivation_table() {
    let k1 = NostrKeypair::generate(false);
    let mut prac_env = IgnisResource::new(
        sample_practitioner(),
        None,
        Some("wss://relay.one".to_string()),
    );
    prac_env.sign_data(&k1);
    let mut cancelled = sample_appointment();
    cancelled.change_status(FhirAppointmentStatus::Cancelled);
    let r = FhirAppointmentResponse::new(
        cancelled,
        prac_env.get_resource_reference().unwrap(),
        None,
        None,
    );
    assert_eq!(r.status(), FhirAppointmentResponseStatus::Declined);
    let mut proposed = sample_appointment();
    proposed.change_status(FhirAppointmentStatus::Proposed);
    let r = FhirAppointmentResponse::new(
        proposed,
        prac_env.get_resource_reference().unwrap(),
        None,
        None,
    );
    assert_eq!(r.status(), FhirAppointmentResponseStatus::NeedsAction);
}

#[test]
fn response_propose_new_time() {
    let k1 = NostrKeypair::generate(false);
    let mut prac_env = IgnisResource::new(
        sample_practitioner(),
        None,
        Some("wss://relay.one".to_string()),
    );
    prac_env.sign_data(&k1);
    let actor = prac_env.get_resource_reference().unwrap();
    let response = FhirAppointmentResponse::propose_new_time(
        sample_appointment(),
        actor,
        Some("Can we move to 10:00?".to_string()),
        None,
    );
    assert_eq!(response.status(), FhirAppointmentResponseStatus::Tentative);
    assert_eq!(
        response.get_comment(),
        Some("Can we move to 10:00?".to_string())
    );
    assert_eq!(response.get_start().0, "2025-01-10T09:00:00Z");
    let js = json_of(&response);
    assert!(js.contains("\"proposedNewTime\":true"));
    assert!(js.contains("\"participantStatus\":\"Tentative\""));
}

#[test]
fn encrypted_roundtrip_to_recipient() {
    let k1 = NostrKeypair::generate(false);
    let k2 = NostrKeypair::generate(false);
    let mut env = IgnisResource::new(sample_org(), None, None);
    let note = env
        .sign_encrypted_data(&k1, k2.public_key())
        .expect("encryption succeeds");
    assert_eq!(note.kind, 2000);
    assert_ne!(note.content, json_of(&sample_org()));
    let env2 = IgnisResource::<FhirOrganization>::from_encrypted_note(&note, &k2, None).unwrap();
    assert_eq!(env2.get_resource(), &sample_org());
}

#[test]
fn full_response_roundtrip_through_signing() {
    let k1 = NostrKeypair::generate(false);
    let mut prac_env = IgnisResource::new(
        sample_practitioner(),
        None,
        Some("wss://relay.one".to_string()),
    );
    prac_env.sign_data(&k1);
    let actor = prac_env.get_resource_reference().unwrap();
    let response = FhirAppointmentResponse::new(sample_appointment(), actor, None, None);
    let expected = json_of(&response);
    let mut env = IgnisResource::new(response, None, None);
    let note = env.sign_data(&k1);
    assert_eq!(note.kind, 2003);
    assert_eq!(note.content, expected);
    let env2 =
        IgnisResource::<FhirAppointmentResponse>::from_signed_note(&note, Some("r".to_string()))
            .unwrap();
    assert_eq!(json_of(env2.get_resource()), expected);
    // the inline actor came back too
    assert_eq!(
        env2.get_resource()
            .get_fhir_actor()
            .get_reference()
            .unwrap()
            .text_name(),
        "Dr. Alice Rivera"
    );
}

#[test]
fn reference_and_identifier_shape() {
    let k1 = NostrKeypair::generate(false);
    let mut env = IgnisResource::new(sample_org(), None, Some("wss://relay.two".to_string()));
    env.sign_data(&k1);
    let id = env.get_resource_id().unwrap();
    let ident = env.get_resource_identifier().unwrap();
    assert_eq!(ident.system, format!("nostr:{}", "wss://relay.two"));
    assert_eq!(ident.value, id);
    let reference = env.get_resource_reference().unwrap();
    assert_eq!(
        reference.get_reference_string(),
        &format!("Organization/{}", id)
    );
    assert!(reference
        .display
        .starts_with("<div xmlns=\"http://www.w3.org/1999/xhtml\">Ignis Clinic"));
}

#[test]
fn draft_envelope_refuses_identity_operations() {
    let env = IgnisResource::new(sample_org(), None, None);
    assert_eq!(env.get_resource_identifier(), Err(FhirError::Unsigned));
    assert!(env.get_resource_reference().is_err());
    assert_eq!(env.get_fhir_json(), Err(FhirError::Unsigned));
    assert_eq!(env.get_resource_id(), None);
    assert_eq!(env.get_pubkey(), None);
}

#[test]
fn signed_envelope_without_relay_reports_no_relay() {
    let k1 = NostrKeypair::generate(false);
    let mut env = IgnisResource::new(sample_org(), None, None);
    env.sign_data(&k1);
    assert_eq!(env.get_resource_identifier(), Err(FhirError::NoRelay));
    assert_eq!(env.get_fhir_json(), Err(FhirError::NoRelay));
}

#[test]
fn malformed_content_is_rejected() {
    let k1 = NostrKeypair::generate(false);
    let mut env = IgnisResource::new(sample_org(), None, None);
    let note = env.sign_data(&k1);
    // an organization's content does not parse as a practitioner
    let err = match IgnisResource::<FhirPractitioner>::from_signed_note(&note, None) {
        Ok(_) => panic!("an organization must not parse as a practitioner"),
        Err(e) => e,
    };
    assert_eq!(err, FhirError::Malformed);
}

#[test]
fn wrong_recipient_cannot_decrypt() {
    let k1 = NostrKeypair::generate(false);
    let k2 = NostrKeypair::generate(false);
    let k3 = NostrKeypair::generate(false);
    let mut env = IgnisResource::new(sample_org(), None, None);
    let note = env.sign_encrypted_data(&k1, k2.public_key()).unwrap();
    let err = match IgnisResource::<FhirOrganization>::from_encrypted_note(&note, &k3, None) {
        Ok(_) => panic!("a stranger's keys must not decrypt the note"),
        Err(e) => e,
    };
    assert!(err == FhirError::Decrypt || err == FhirError::Malformed);
}

#[test]
fn bad_recipient_key_reports_crypto_sign() {
    let k1 = NostrKeypair::generate(false);
    let mut env = IgnisResource::new(sample_org(), None, None);
    let err = env
        .sign_encrypted_data(&k1, "not a key".to_string())
        .unwrap_err();
    assert_eq!(err, FhirError::CryptoSign);
}
