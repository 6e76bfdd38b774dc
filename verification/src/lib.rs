//! Strongly typed HL7 FHIR R5 resources (Organization, Practitioner,
//! Appointment, AppointmentResponse) bound to signed events of a relay-based
//! messaging protocol. Every resource value has a canonical JSON text, proved
//! to round-trip through the parser, and the envelope type ties a resource to
//! its signed event and its origin relay.

pub mod jsontext;
pub mod valuesets;
pub mod consts;
pub mod datatypes;
pub mod metadata;
pub mod jsonval;
pub mod nostr;
pub mod fhir_trait;
pub mod organization;
pub mod practitioner;
pub mod appointment;
pub mod appointment_response;
