//! Protocol kind codes of the resources.
// https://www.hl7.org/fhir/resourcelist.html

use vstd::prelude::*;

verus! {

pub const NOSTR_KIND_ORGANIZATION: u32 = 2000;

pub const NOSTR_KIND_PRACTITIONER: u32 = 2001;

pub const NOSTR_KIND_APPOINTMENT: u32 = 2002;

pub const NOSTR_KIND_APPOINTMENT_RESPONSE: u32 = 2003;

} // verus!
