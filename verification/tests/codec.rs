use ignis_fhir::datatypes::{
    FhirAddress, FhirContactPoint, FhirDateTime, FhirHumanName, FhirInstant, FhirPeriod,
};
use ignis_fhir::fhir_trait::{FhirResource, IgnisResource};
use ignis_fhir::metadata::FhirExtendedContactDetail;
use ignis_fhir::organization::FhirOrganization;
use ignis_fhir::practitioner::FhirPractitioner;
use ignis_fhir::valuesets::{
    FhirAddressType, FhirAddressUse, FhirAppointmentResponseStatus, FhirAppointmentStatus,
    FhirContactEntityType, FhirContactPointSystem, FhirContactPointUse, FhirNameUse,
    FhirOrganizationType,
};
use nostro2::keypair::NostrKeypair;
use serde_json::Value;

fn json_of<T: FhirResource>(r: &T) -> String {
    r.to_json().into_iter().collect()
}

fn roundtrip<T: FhirResource>(r: &T) -> T {
    T::from_json(&r.to_json()).expect("own canonical text parses back")
}

#[test]
fn human_name_simple_collapses_family() {
    let n = FhirHumanName::new_simple("Dr. Alice Rivera".to_string());
    assert_eq!(n.name_use, FhirNameUse::Official);
    assert_eq!(n.text, "Dr. Alice Rivera");
    assert_eq!(n.family, "Dr. Alice Rivera");
    assert!(n.given.is_empty() && n.prefix.is_empty() && n.suffix.is_empty());
    assert!(n.period.is_none());
}

#[test]
fn contact_point_constructors() {
    let e = FhirContactPoint::new_email("a@x".to_string());
    assert_eq!(e.system, FhirContactPointSystem::Email);
    assert_eq!(e.contact_use, FhirContactPointUse::Mobile);
    assert_eq!(e.value, "a@x");
    let p = FhirContactPoint::new_phone("555-1".to_string());
    assert_eq!(p.system, FhirContactPointSystem::Phone);
    assert_eq!(p.contact_use, FhirContactPointUse::Mobile);
}

#[test]
fn status_labels() {
    assert_eq!(FhirAppointmentStatus::Booked.to_str(), "Booked");
    assert_eq!(FhirAppointmentStatus::Booked.to_spanish_str(), "Reservado");
    assert_eq!(
        FhirAppointmentStatus::EnteredInError.to_str(),
        "EnteredInError"
    );
    assert_eq!(
        FhirAppointmentStatus::Noshow.to_spanish_str(),
        "No presentado"
    );
    assert_eq!(FhirAppointmentResponseStatus::Accepted.to_str(), "Accepted");
    assert_eq!(
        FhirAppointmentResponseStatus::Accepted.to_spanish_str(),
        "Aceptado"
    );
    assert_eq!(
        FhirAppointmentResponseStatus::NeedsAction.to_str(),
        "NeedsAction"
    );
    assert_eq!(
        FhirAppointmentResponseStatus::NeedsAction.to_spanish_str(),
        "Necesita acción"
    );
}

#[test]
fn escaping_roundtrips_awkward_strings() {
    let org = FhirOrganization::new(
        "a\"b\\c\nd\te\u{1}".to_string(),
        FhirOrganizationType::Other,
        vec![],
        "".to_string(),
    );
    let back = roundtrip(&org);
    assert_eq!(back, org);
    let js = json_of(&org);
    assert!(js.contains("a\\\"b\\\\c\\u000ad\\u0009e\\u0001"));
}

#[test]
fn organization_with_full_contact_detail_roundtrips() {
    let address = FhirAddress {
        address_use: FhirAddressUse::Work,
        address_type: FhirAddressType::Both,
        text: "1 Main St".to_string(),
        line: vec!["1 Main St".to_string(), "Floor 2".to_string()],
        city: Some("Springfield".to_string()),
        district: None,
        state: Some("IL".to_string()),
        postal_code: Some("62701".to_string()),
        country: None,
        period: Some(FhirPeriod {
            start: FhirDateTime("2024-01-01".to_string()),
            end: FhirDateTime("2025-01-01".to_string()),
        }),
    };
    let mut phone = FhirContactPoint::new_phone("555-2".to_string());
    phone.rank = Some(7);
    let ecd = FhirExtendedContactDetail {
        purpose: FhirContactEntityType::Administrative,
        name: Some("Front desk".to_string()),
        telecom: vec![phone, FhirContactPoint::new_email("desk@x".to_string())],
        address: Some(address),
        period: None,
    };
    let org = FhirOrganization::new(
        "Ignis Clinic".to_string(),
        FhirOrganizationType::Provider,
        vec![ecd],
        "Primary care".to_string(),
    );
    let js = json_of(&org);
    assert!(js.contains("\"rank\":7"));
    assert!(js.contains("\"postalCode\":\"62701\""));
    assert!(js.contains("\"use\":\"Work\",\"type\":\"Both\""));
    assert_eq!(roundtrip(&org), org);
}

#[test]
fn practitioner_extension_roundtrips() {
    let mut p = FhirPractitioner::new(FhirHumanName::new_simple("Dr. B".to_string()), vec![]);
    let mut map = serde_json::Map::new();
    map.insert("speciality".to_string(), Value::String("oncology".to_string()));
    map.insert("years".to_string(), Value::from(12));
    p.extend(Value::Object(map));
    let back = roundtrip(&p);
    assert_eq!(back, p);
    let ext = back.get_extension().clone().unwrap();
    assert_eq!(ext.get("years"), Some(&Value::from(12)));
    // the payload rides as a JSON string on the wire
    assert!(json_of(&p).contains("\"extension\":\"{"));
}

#[test]
fn extension_null_value_roundtrips() {
    let mut p = FhirPractitioner::new(FhirHumanName::new_simple("Dr. C".to_string()), vec![]);
    p.extend(Value::Null);
    let back = roundtrip(&p);
    assert_eq!(back.get_extension(), &Some(Value::Null));
}

#[test]
fn too_deep_extension_payload_fails_the_reparse_check_and_reimport() {
    // the deserializer has a nesting limit the serializer does not
    let mut deep = Value::Bool(true);
    for _ in 0..200 {
        deep = Value::Array(vec![deep]);
    }
    assert!(!ignis_fhir::jsonval::value_reparses(&deep));
    let shallow = Value::Array(vec![Value::Bool(true)]);
    assert!(ignis_fhir::jsonval::value_reparses(&shallow));

    // such a payload signs fine but cannot be read back
    let mut p = FhirPractitioner::new(FhirHumanName::new_simple("Dr. D".to_string()), vec![]);
    p.extend(deep);
    let k1 = NostrKeypair::generate(false);
    let mut env = IgnisResource::new(p, None, None);
    let note = env.sign_data(&k1);
    assert!(IgnisResource::<FhirPractitioner>::from_signed_note(&note, None).is_err());
}

#[test]
fn non_canonical_content_is_rejected() {
    // same data, different key order: the canonical reader refuses it
    let env = IgnisResource::new(
        FhirOrganization::new(
            "X".to_string(),
            FhirOrganizationType::Team,
            vec![],
            "".to_string(),
        ),
        None,
        None,
    );
    let good = json_of(env.get_resource());
    let chars: Vec<char> = good.chars().collect();
    assert!(FhirOrganization::from_json(&chars).is_some());
    let reordered = "{\"type\":\"Team\",\"name\":\"X\",\"contact\":[],\"description\":\"\"}";
    let chars: Vec<char> = reordered.chars().collect();
    assert!(FhirOrganization::from_json(&chars).is_none());
    let truncated: Vec<char> = good[..good.len() - 1].chars().collect();
    assert!(FhirOrganization::from_json(&truncated).is_none());
}

#[test]
fn kind_codes_are_stable() {
    let k = NostrKeypair::generate(false);
    let mut org_env = IgnisResource::new(
        FhirOrganization::new(
            "X".to_string(),
            FhirOrganizationType::Team,
            vec![],
            "".to_string(),
        ),
        None,
        None,
    );
    assert_eq!(org_env.sign_data(&k).kind, 2000);
    let mut prac_env = IgnisResource::new(
        FhirPractitioner::new(FhirHumanName::new_simple("P".to_string()), vec![]),
        None,
        None,
    );
    assert_eq!(prac_env.sign_data(&k).kind, 2001);
}

#[test]
fn instant_and_datetime_are_plain_strings() {
    let i = FhirInstant("2025-01-10T09:00:00Z".to_string());
    assert_eq!(i.0, "2025-01-10T09:00:00Z");
    let d = FhirDateTime("2025-01-10".to_string());
    assert_eq!(d.0, "2025-01-10");
    assert_eq!(i, i.clone());
    assert_ne!(
        FhirInstant("a".to_string()),
        FhirInstant("b".to_string())
    );
}
