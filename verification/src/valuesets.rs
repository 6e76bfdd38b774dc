//! Closed value sets for coded attributes, each serialized as a PascalCase
//! JSON string, with the spec-level code of each value, the parser of the
//! coded string, and the proof that the code round-trips.

use vstd::prelude::*;
use crate::jsontext::{jstr, p_jstr, lemma_p_jstr, parse_jstr, eq_lit};

verus! {

// https://www.hl7.org/fhir/valueset-name-use.html
#[derive(Debug, Clone, Copy, PartialEq, Eq, Structural)]
pub enum FhirNameUse {
    Usual,
    Official,
    Temp,
    Nickname,
    Anonymous,
    Old,
    Maiden,
}

pub open spec fn name_use_code(e: FhirNameUse) -> Seq<char> {
    match e {
        FhirNameUse::Usual => "Usual"@,
        FhirNameUse::Official => "Official"@,
        FhirNameUse::Temp => "Temp"@,
        FhirNameUse::Nickname => "Nickname"@,
        FhirNameUse::Anonymous => "Anonymous"@,
        FhirNameUse::Old => "Old"@,
        FhirNameUse::Maiden => "Maiden"@,
    }
}

pub open spec fn name_use_from_code(s: Seq<char>) -> Option<FhirNameUse> {
    if s == "Usual"@ {
        Some(FhirNameUse::Usual)
    } else
    if s == "Official"@ {
        Some(FhirNameUse::Official)
    } else
    if s == "Temp"@ {
        Some(FhirNameUse::Temp)
    } else
    if s == "Nickname"@ {
        Some(FhirNameUse::Nickname)
    } else
    if s == "Anonymous"@ {
        Some(FhirNameUse::Anonymous)
    } else
    if s == "Old"@ {
        Some(FhirNameUse::Old)
    } else
    if s == "Maiden"@ {
        Some(FhirNameUse::Maiden)
    } else {
        None
    }
}

pub open spec fn p_name_use(s: Seq<char>) -> Option<(FhirNameUse, Seq<char>)> {
    match p_jstr(s) {
        Some((t, r)) => match name_use_from_code(t) {
            Some(e) => Some((e, r)),
            None => None,
        },
        None => None,
    }
}

pub proof fn lemma_name_use_roundtrip(e: FhirNameUse, rest: Seq<char>)
    ensures
        p_name_use(jstr(name_use_code(e)) + rest) == Some((e, rest)),
{
    reveal_strlit("Usual");
    reveal_strlit("Official");
    reveal_strlit("Temp");
    reveal_strlit("Nickname");
    reveal_strlit("Anonymous");
    reveal_strlit("Old");
    reveal_strlit("Maiden");
    lemma_p_jstr(name_use_code(e), rest);
}

impl FhirNameUse {
    /// The PascalCase code of this value on the wire.
    pub fn code_str(&self) -> (r: &str)
        ensures
            r@ == name_use_code(*self),
    {
        match self {
            FhirNameUse::Usual => "Usual",
            FhirNameUse::Official => "Official",
            FhirNameUse::Temp => "Temp",
            FhirNameUse::Nickname => "Nickname",
            FhirNameUse::Anonymous => "Anonymous",
            FhirNameUse::Old => "Old",
            FhirNameUse::Maiden => "Maiden",
        }
    }
}

pub fn parse_name_use(s: &Vec<char>, i: usize) -> (r: Option<(FhirNameUse, usize)>)
    requires
        i <= s@.len(),
    ensures
        match r {
            Some(p) => p.1 <= s@.len() && p_name_use(s@.skip(i as int)) == Some(
                (p.0, s@.skip(p.1 as int)),
            ),
            None => p_name_use(s@.skip(i as int)) is None,
        },
{
    match parse_jstr(s, i) {
        Some((t, j)) => {
            if eq_lit(&t, "Usual") {
                Some((FhirNameUse::Usual, j))
            } else if eq_lit(&t, "Official") {
                Some((FhirNameUse::Official, j))
            } else if eq_lit(&t, "Temp") {
                Some((FhirNameUse::Temp, j))
            } else if eq_lit(&t, "Nickname") {
                Some((FhirNameUse::Nickname, j))
            } else if eq_lit(&t, "Anonymous") {
                Some((FhirNameUse::Anonymous, j))
            } else if eq_lit(&t, "Old") {
                Some((FhirNameUse::Old, j))
            } else if eq_lit(&t, "Maiden") {
                Some((FhirNameUse::Maiden, j))
            } else {
                None
            }
        },
        None => None,
    }
}

// https://www.hl7.org/fhir/valueset-organization-type.html
#[derive(Debug, Clone, Copy, PartialEq, Eq, Structural)]
pub enum FhirOrganizationType {
    Provider,
    Department,
    Team,
    Government,
    InsuranceCompany,
    Payer,
    EducationalInstitute,
    ReligiousInstitution,
    ClinicalResearchSponsor,
    CommunityGroup,
    NonHealthcareBusiness,
    Other,
}

pub open spec fn org_type_code(e: FhirOrganizationType) -> Seq<char> {
    match e {
        FhirOrganizationType::Provider => "Provider"@,
        FhirOrganizationType::Department => "Department"@,
        FhirOrganizationType::Team => "Team"@,
        FhirOrganizationType::Government => "Government"@,
        FhirOrganizationType::InsuranceCompany => "InsuranceCompany"@,
        FhirOrganizationType::Payer => "Payer"@,
        FhirOrganizationType::EducationalInstitute => "EducationalInstitute"@,
        FhirOrganizationType::ReligiousInstitution => "ReligiousInstitution"@,
        FhirOrganizationType::ClinicalResearchSponsor => "ClinicalResearchSponsor"@,
        FhirOrganizationType::CommunityGroup => "CommunityGroup"@,
        FhirOrganizationType::NonHealthcareBusiness => "NonHealthcareBusiness"@,
        FhirOrganizationType::Other => "Other"@,
    }
}

pub open spec fn org_type_from_code(s: Seq<char>) -> Option<FhirOrganizationType> {
    if s == "Provider"@ {
        Some(FhirOrganizationType::Provider)
    } else
    if s == "Department"@ {
        Some(FhirOrganizationType::Department)
    } else
    if s == "Team"@ {
        Some(FhirOrganizationType::Team)
    } else
    if s == "Government"@ {
        Some(FhirOrganizationType::Government)
    } else
    if s == "InsuranceCompany"@ {
        Some(FhirOrganizationType::InsuranceCompany)
    } else
    if s == "Payer"@ {
        Some(FhirOrganizationType::Payer)
    } else
    if s == "EducationalInstitute"@ {
        Some(FhirOrganizationType::EducationalInstitute)
    } else
    if s == "ReligiousInstitution"@ {
        Some(FhirOrganizationType::ReligiousInstitution)
    } else
    if s == "ClinicalResearchSponsor"@ {
        Some(FhirOrganizationType::ClinicalResearchSponsor)
    } else
    if s == "CommunityGroup"@ {
        Some(FhirOrganizationType::CommunityGroup)
    } else
    if s == "NonHealthcareBusiness"@ {
        Some(FhirOrganizationType::NonHealthcareBusiness)
    } else
    if s == "Other"@ {
        Some(FhirOrganizationType::Other)
    } else {
        None
    }
}

pub open spec fn p_org_type(s: Seq<char>) -> Option<(FhirOrganizationType, Seq<char>)> {
    match p_jstr(s) {
        Some((t, r)) => match org_type_from_code(t) {
            Some(e) => Some((e, r)),
            None => None,
        },
        None => None,
    }
}

pub proof fn lemma_org_type_roundtrip(e: FhirOrganizationType, rest: Seq<char>)
    ensures
        p_org_type(jstr(org_type_code(e)) + rest) == Some((e, rest)),
{
    reveal_strlit("Provider");
    reveal_strlit("Department");
    reveal_strlit("Team");
    reveal_strlit("Government");
    reveal_strlit("InsuranceCompany");
    reveal_strlit("Payer");
    reveal_strlit("EducationalInstitute");
    reveal_strlit("ReligiousInstitution");
    reveal_strlit("ClinicalResearchSponsor");
    reveal_strlit("CommunityGroup");
    reveal_strlit("NonHealthcareBusiness");
    reveal_strlit("Other");
    lemma_p_jstr(org_type_code(e), rest);
}

impl FhirOrganizationType {
    /// The PascalCase code of this value on the wire.
    pub fn code_str(&self) -> (r: &str)
        ensures
            r@ == org_type_code(*self),
    {
        match self {
            FhirOrganizationType::Provider => "Provider",
            FhirOrganizationType::Department => "Department",
            FhirOrganizationType::Team => "Team",
            FhirOrganizationType::Government => "Government",
            FhirOrganizationType::InsuranceCompany => "InsuranceCompany",
            FhirOrganizationType::Payer => "Payer",
            FhirOrganizationType::EducationalInstitute => "EducationalInstitute",
            FhirOrganizationType::ReligiousInstitution => "ReligiousInstitution",
            FhirOrganizationType::ClinicalResearchSponsor => "ClinicalResearchSponsor",
            FhirOrganizationType::CommunityGroup => "CommunityGroup",
            FhirOrganizationType::NonHealthcareBusiness => "NonHealthcareBusiness",
            FhirOrganizationType::Other => "Other",
        }
    }
}

pub fn parse_org_type(s: &Vec<char>, i: usize) -> (r: Option<(FhirOrganizationType, usize)>)
    requires
        i <= s@.len(),
    ensures
        match r {
            Some(p) => p.1 <= s@.len() && p_org_type(s@.skip(i as int)) == Some(
                (p.0, s@.skip(p.1 as int)),
            ),
            None => p_org_type(s@.skip(i as int)) is None,
        },
{
    match parse_jstr(s, i) {
        Some((t, j)) => {
            if eq_lit(&t, "Provider") {
                Some((FhirOrganizationType::Provider, j))
            } else if eq_lit(&t, "Department") {
                Some((FhirOrganizationType::Department, j))
            } else if eq_lit(&t, "Team") {
                Some((FhirOrganizationType::Team, j))
            } else if eq_lit(&t, "Government") {
                Some((FhirOrganizationType::Government, j))
            } else if eq_lit(&t, "InsuranceCompany") {
                Some((FhirOrganizationType::InsuranceCompany, j))
            } else if eq_lit(&t, "Payer") {
                Some((FhirOrganizationType::Payer, j))
            } else if eq_lit(&t, "EducationalInstitute") {
                Some((FhirOrganizationType::EducationalInstitute, j))
            } else if eq_lit(&t, "ReligiousInstitution") {
                Some((FhirOrganizationType::ReligiousInstitution, j))
            } else if eq_lit(&t, "ClinicalResearchSponsor") {
                Some((FhirOrganizationType::ClinicalResearchSponsor, j))
            } else if eq_lit(&t, "CommunityGroup") {
                Some((FhirOrganizationType::CommunityGroup, j))
            } else if eq_lit(&t, "NonHealthcareBusiness") {
                Some((FhirOrganizationType::NonHealthcareBusiness, j))
            } else if eq_lit(&t, "Other") {
                Some((FhirOrganizationType::Other, j))
            } else {
                None
            }
        },
        None => None,
    }
}

// https://www.hl7.org/fhir/valueset-address-type.html
#[derive(Debug, Clone, Copy, PartialEq, Eq, Structural)]
pub enum FhirAddressType {
    Postal,
    Physical,
    Both,
}

pub open spec fn address_type_code(e: FhirAddressType) -> Seq<char> {
    match e {
        FhirAddressType::Postal => "Postal"@,
        FhirAddressType::Physical => "Physical"@,
        FhirAddressType::Both => "Both"@,
    }
}

pub open spec fn address_type_from_code(s: Seq<char>) -> Option<FhirAddressType> {
    if s == "Postal"@ {
        Some(FhirAddressType::Postal)
    } else
    if s == "Physical"@ {
        Some(FhirAddressType::Physical)
    } else
    if s == "Both"@ {
        Some(FhirAddressType::Both)
    } else {
        None
    }
}

pub open spec fn p_address_type(s: Seq<char>) -> Option<(FhirAddressType, Seq<char>)> {
    match p_jstr(s) {
        Some((t, r)) => match address_type_from_code(t) {
            Some(e) => Some((e, r)),
            None => None,
        },
        None => None,
    }
}

pub proof fn lemma_address_type_roundtrip(e: FhirAddressType, rest: Seq<char>)
    ensures
        p_address_type(jstr(address_type_code(e)) + rest) == Some((e, rest)),
{
    reveal_strlit("Postal");
    reveal_strlit("Physical");
    reveal_strlit("Both");
    lemma_p_jstr(address_type_code(e), rest);
}

impl FhirAddressType {
    /// The PascalCase code of this value on the wire.
    pub fn code_str(&self) -> (r: &str)
        ensures
            r@ == address_type_code(*self),
    {
        match self {
            FhirAddressType::Postal => "Postal",
            FhirAddressType::Physical => "Physical",
            FhirAddressType::Both => "Both",
        }
    }
}

pub fn parse_address_type(s: &Vec<char>, i: usize) -> (r: Option<(FhirAddressType, usize)>)
    requires
        i <= s@.len(),
    ensures
        match r {
            Some(p) => p.1 <= s@.len() && p_address_type(s@.skip(i as int)) == Some(
                (p.0, s@.skip(p.1 as int)),
            ),
            None => p_address_type(s@.skip(i as int)) is None,
        },
{
    match parse_jstr(s, i) {
        Some((t, j)) => {
            if eq_lit(&t, "Postal") {
                Some((FhirAddressType::Postal, j))
            } else if eq_lit(&t, "Physical") {
                Some((FhirAddressType::Physical, j))
            } else if eq_lit(&t, "Both") {
                Some((FhirAddressType::Both, j))
            } else {
                None
            }
        },
        None => None,
    }
}

// https://www.hl7.org/fhir/valueset-address-use.html
#[derive(Debug, Clone, Copy, PartialEq, Eq, Structural)]
pub enum FhirAddressUse {
    Home,
    Work,
    Temporary,
    Old,
    Billing,
}

pub open spec fn address_use_code(e: FhirAddressUse) -> Seq<char> {
    match e {
        FhirAddressUse::Home => "Home"@,
        FhirAddressUse::Work => "Work"@,
        FhirAddressUse::Temporary => "Temporary"@,
        FhirAddressUse::Old => "Old"@,
        FhirAddressUse::Billing => "Billing"@,
    }
}

pub open spec fn address_use_from_code(s: Seq<char>) -> Option<FhirAddressUse> {
    if s == "Home"@ {
        Some(FhirAddressUse::Home)
    } else
    if s == "Work"@ {
        Some(FhirAddressUse::Work)
    } else
    if s == "Temporary"@ {
        Some(FhirAddressUse::Temporary)
    } else
    if s == "Old"@ {
        Some(FhirAddressUse::Old)
    } else
    if s == "Billing"@ {
        Some(FhirAddressUse::Billing)
    } else {
        None
    }
}

pub open spec fn p_address_use(s: Seq<char>) -> Option<(FhirAddressUse, Seq<char>)> {
    match p_jstr(s) {
        Some((t, r)) => match address_use_from_code(t) {
            Some(e) => Some((e, r)),
            None => None,
        },
        None => None,
    }
}

pub proof fn lemma_address_use_roundtrip(e: FhirAddressUse, rest: Seq<char>)
    ensures
        p_address_use(jstr(address_use_code(e)) + rest) == Some((e, rest)),
{
    reveal_strlit("Home");
    reveal_strlit("Work");
    reveal_strlit("Temporary");
    reveal_strlit("Old");
    reveal_strlit("Billing");
    lemma_p_jstr(address_use_code(e), rest);
}

impl FhirAddressUse {
    /// The PascalCase code of this value on the wire.
    pub fn code_str(&self) -> (r: &str)
        ensures
            r@ == address_use_code(*self),
    {
        match self {
            FhirAddressUse::Home => "Home",
            FhirAddressUse::Work => "Work",
            FhirAddressUse::Temporary => "Temporary",
            FhirAddressUse::Old => "Old",
            FhirAddressUse::Billing => "Billing",
        }
    }
}

pub fn parse_address_use(s: &Vec<char>, i: usize) -> (r: Option<(FhirAddressUse, usize)>)
    requires
        i <= s@.len(),
    ensures
        match r {
            Some(p) => p.1 <= s@.len() && p_address_use(s@.skip(i as int)) == Some(
                (p.0, s@.skip(p.1 as int)),
            ),
            None => p_address_use(s@.skip(i as int)) is None,
        },
{
    match parse_jstr(s, i) {
        Some((t, j)) => {
            if eq_lit(&t, "Home") {
                Some((FhirAddressUse::Home, j))
            } else if eq_lit(&t, "Work") {
                Some((FhirAddressUse::Work, j))
            } else if eq_lit(&t, "Temporary") {
                Some((FhirAddressUse::Temporary, j))
            } else if eq_lit(&t, "Old") {
                Some((FhirAddressUse::Old, j))
            } else if eq_lit(&t, "Billing") {
                Some((FhirAddressUse::Billing, j))
            } else {
                None
            }
        },
        None => None,
    }
}

// https://www.hl7.org/fhir/valueset-contact-point-use.html
#[derive(Debug, Clone, Copy, PartialEq, Eq, Structural)]
pub enum FhirContactPointUse {
    Home,
    Work,
    Temp,
    Old,
    Mobile,
}

pub open spec fn cp_use_code(e: FhirContactPointUse) -> Seq<char> {
    match e {
        FhirContactPointUse::Home => "Home"@,
        FhirContactPointUse::Work => "Work"@,
        FhirContactPointUse::Temp => "Temp"@,
        FhirContactPointUse::Old => "Old"@,
        FhirContactPointUse::Mobile => "Mobile"@,
    }
}

pub open spec fn cp_use_from_code(s: Seq<char>) -> Option<FhirContactPointUse> {
    if s == "Home"@ {
        Some(FhirContactPointUse::Home)
    } else
    if s == "Work"@ {
        Some(FhirContactPointUse::Work)
    } else
    if s == "Temp"@ {
        Some(FhirContactPointUse::Temp)
    } else
    if s == "Old"@ {
        Some(FhirContactPointUse::Old)
    } else
    if s == "Mobile"@ {
        Some(FhirContactPointUse::Mobile)
    } else {
        None
    }
}

pub open spec fn p_cp_use(s: Seq<char>) -> Option<(FhirContactPointUse, Seq<char>)> {
    match p_jstr(s) {
        Some((t, r)) => match cp_use_from_code(t) {
            Some(e) => Some((e, r)),
            None => None,
        },
        None => None,
    }
}

pub proof fn lemma_cp_use_roundtrip(e: FhirContactPointUse, rest: Seq<char>)
    ensures
        p_cp_use(jstr(cp_use_code(e)) + rest) == Some((e, rest)),
{
    reveal_strlit("Home");
    reveal_strlit("Work");
    reveal_strlit("Temp");
    reveal_strlit("Old");
    reveal_strlit("Mobile");
    lemma_p_jstr(cp_use_code(e), rest);
}

impl FhirContactPointUse {
    /// The PascalCase code of this value on the wire.
    pub fn code_str(&self) -> (r: &str)
        ensures
            r@ == cp_use_code(*self),
    {
        match self {
            FhirContactPointUse::Home => "Home",
            FhirContactPointUse::Work => "Work",
            FhirContactPointUse::Temp => "Temp",
            FhirContactPointUse::Old => "Old",
            FhirContactPointUse::Mobile => "Mobile",
        }
    }
}

pub fn parse_cp_use(s: &Vec<char>, i: usize) -> (r: Option<(FhirContactPointUse, usize)>)
    requires
        i <= s@.len(),
    ensures
        match r {
            Some(p) => p.1 <= s@.len() && p_cp_use(s@.skip(i as int)) == Some(
                (p.0, s@.skip(p.1 as int)),
            ),
            None => p_cp_use(s@.skip(i as int)) is None,
        },
{
    match parse_jstr(s, i) {
        Some((t, j)) => {
            if eq_lit(&t, "Home") {
                Some((FhirContactPointUse::Home, j))
            } else if eq_lit(&t, "Work") {
                Some((FhirContactPointUse::Work, j))
            } else if eq_lit(&t, "Temp") {
                Some((FhirContactPointUse::Temp, j))
            } else if eq_lit(&t, "Old") {
                Some((FhirContactPointUse::Old, j))
            } else if eq_lit(&t, "Mobile") {
                Some((FhirContactPointUse::Mobile, j))
            } else {
                None
            }
        },
        None => None,
    }
}

// https://www.hl7.org/fhir/valueset-contact-point-system.html
#[derive(Debug, Clone, Copy, PartialEq, Eq, Structural)]
pub enum FhirContactPointSystem {
    Phone,
    Fax,
    Email,
    Pager,
    Url,
    Sms,
    Other,
}

pub open spec fn cp_system_code(e: FhirContactPointSystem) -> Seq<char> {
    match e {
        FhirContactPointSystem::Phone => "Phone"@,
        FhirContactPointSystem::Fax => "Fax"@,
        FhirContactPointSystem::Email => "Email"@,
        FhirContactPointSystem::Pager => "Pager"@,
        FhirContactPointSystem::Url => "Url"@,
        FhirContactPointSystem::Sms => "Sms"@,
        FhirContactPointSystem::Other => "Other"@,
    }
}

pub open spec fn cp_system_from_code(s: Seq<char>) -> Option<FhirContactPointSystem> {
    if s == "Phone"@ {
        Some(FhirContactPointSystem::Phone)
    } else
    if s == "Fax"@ {
        Some(FhirContactPointSystem::Fax)
    } else
    if s == "Email"@ {
        Some(FhirContactPointSystem::Email)
    } else
    if s == "Pager"@ {
        Some(FhirContactPointSystem::Pager)
    } else
    if s == "Url"@ {
        Some(FhirContactPointSystem::Url)
    } else
    if s == "Sms"@ {
        Some(FhirContactPointSystem::Sms)
    } else
    if s == "Other"@ {
        Some(FhirContactPointSystem::Other)
    } else {
        None
    }
}

pub open spec fn p_cp_system(s: Seq<char>) -> Option<(FhirContactPointSystem, Seq<char>)> {
    match p_jstr(s) {
        Some((t, r)) => match cp_system_from_code(t) {
            Some(e) => Some((e, r)),
            None => None,
        },
        None => None,
    }
}

pub proof fn lemma_cp_system_roundtrip(e: FhirContactPointSystem, rest: Seq<char>)
    ensures
        p_cp_system(jstr(cp_system_code(e)) + rest) == Some((e, rest)),
{
    reveal_strlit("Phone");
    reveal_strlit("Fax");
    reveal_strlit("Email");
    reveal_strlit("Pager");
    reveal_strlit("Url");
    reveal_strlit("Sms");
    reveal_strlit("Other");
    lemma_p_jstr(cp_system_code(e), rest);
    assert("Email"@[0] != "Phone"@[0]);
    assert("Email"@ != "Phone"@);
    assert("Pager"@[1] != "Phone"@[1]);
    assert("Pager"@ != "Phone"@);
    assert("Pager"@[0] != "Email"@[0]);
    assert("Pager"@ != "Email"@);
    assert("Url"@[0] != "Fax"@[0]);
    assert("Url"@ != "Fax"@);
    assert("Sms"@[0] != "Fax"@[0]);
    assert("Sms"@ != "Fax"@);
    assert("Sms"@[0] != "Url"@[0]);
    assert("Sms"@ != "Url"@);
    assert("Other"@[0] != "Phone"@[0]);
    assert("Other"@ != "Phone"@);
    assert("Other"@[0] != "Email"@[0]);
    assert("Other"@ != "Email"@);
    assert("Other"@[0] != "Pager"@[0]);
    assert("Other"@ != "Pager"@);
}

impl FhirContactPointSystem {
    /// The PascalCase code of this value on the wire.
    pub fn code_str(&self) -> (r: &str)
        ensures
            r@ == cp_system_code(*self),
    {
        match self {
            FhirContactPointSystem::Phone => "Phone",
            FhirContactPointSystem::Fax => "Fax",
            FhirContactPointSystem::Email => "Email",
            FhirContactPointSystem::Pager => "Pager",
            FhirContactPointSystem::Url => "Url",
            FhirContactPointSystem::Sms => "Sms",
            FhirContactPointSystem::Other => "Other",
        }
    }
}

pub fn parse_cp_system(s: &Vec<char>, i: usize) -> (r: Option<(FhirContactPointSystem, usize)>)
    requires
        i <= s@.len(),
    ensures
        match r {
            Some(p) => p.1 <= s@.len() && p_cp_system(s@.skip(i as int)) == Some(
                (p.0, s@.skip(p.1 as int)),
            ),
            None => p_cp_system(s@.skip(i as int)) is None,
        },
{
    match parse_jstr(s, i) {
        Some((t, j)) => {
            if eq_lit(&t, "Phone") {
                Some((FhirContactPointSystem::Phone, j))
            } else if eq_lit(&t, "Fax") {
                Some((FhirContactPointSystem::Fax, j))
            } else if eq_lit(&t, "Email") {
                Some((FhirContactPointSystem::Email, j))
            } else if eq_lit(&t, "Pager") {
                Some((FhirContactPointSystem::Pager, j))
            } else if eq_lit(&t, "Url") {
                Some((FhirContactPointSystem::Url, j))
            } else if eq_lit(&t, "Sms") {
                Some((FhirContactPointSystem::Sms, j))
            } else if eq_lit(&t, "Other") {
                Some((FhirContactPointSystem::Other, j))
            } else {
                None
            }
        },
        None => None,
    }
}

// https://terminology.hl7.org/5.1.0/ValueSet-contactentity-type.html
#[derive(Debug, Clone, Copy, PartialEq, Eq, Structural)]
pub enum FhirContactEntityType {
    Billing,
    Administrative,
    HumanResource,
    Payor,
    Patient,
    Press,
}

pub open spec fn entity_type_code(e: FhirContactEntityType) -> Seq<char> {
    match e {
        FhirContactEntityType::Billing => "Billing"@,
        FhirContactEntityType::Administrative => "Administrative"@,
        FhirContactEntityType::HumanResource => "HumanResource"@,
        FhirContactEntityType::Payor => "Payor"@,
        FhirContactEntityType::Patient => "Patient"@,
        FhirContactEntityType::Press => "Press"@,
    }
}

pub open spec fn entity_type_from_code(s: Seq<char>) -> Option<FhirContactEntityType> {
    if s == "Billing"@ {
        Some(FhirContactEntityType::Billing)
    } else
    if s == "Administrative"@ {
        Some(FhirContactEntityType::Administrative)
    } else
    if s == "HumanResource"@ {
        Some(FhirContactEntityType::HumanResource)
    } else
    if s == "Payor"@ {
        Some(FhirContactEntityType::Payor)
    } else
    if s == "Patient"@ {
        Some(FhirContactEntityType::Patient)
    } else
    if s == "Press"@ {
        Some(FhirContactEntityType::Press)
    } else {
        None
    }
}

pub open spec fn p_entity_type(s: Seq<char>) -> Option<(FhirContactEntityType, Seq<char>)> {
    match p_jstr(s) {
        Some((t, r)) => match entity_type_from_code(t) {
            Some(e) => Some((e, r)),
            None => None,
        },
        None => None,
    }
}

pub proof fn lemma_entity_type_roundtrip(e: FhirContactEntityType, rest: Seq<char>)
    ensures
        p_entity_type(jstr(entity_type_code(e)) + rest) == Some((e, rest)),
{
    reveal_strlit("Billing");
    reveal_strlit("Administrative");
    reveal_strlit("HumanResource");
    reveal_strlit("Payor");
    reveal_strlit("Patient");
    reveal_strlit("Press");
    lemma_p_jstr(entity_type_code(e), rest);
    assert("Patient"@[0] != "Billing"@[0]);
    assert("Patient"@ != "Billing"@);
    assert("Press"@[1] != "Payor"@[1]);
    assert("Press"@ != "Payor"@);
}

impl FhirContactEntityType {
    /// The PascalCase code of this value on the wire.
    pub fn code_str(&self) -> (r: &str)
        ensures
            r@ == entity_type_code(*self),
    {
        match self {
            FhirContactEntityType::Billing => "Billing",
            FhirContactEntityType::Administrative => "Administrative",
            FhirContactEntityType::HumanResource => "HumanResource",
            FhirContactEntityType::Payor => "Payor",
            FhirContactEntityType::Patient => "Patient",
            FhirContactEntityType::Press => "Press",
        }
    }
}

pub fn parse_entity_type(s: &Vec<char>, i: usize) -> (r: Option<(FhirContactEntityType, usize)>)
    requires
        i <= s@.len(),
    ensures
        match r {
            Some(p) => p.1 <= s@.len() && p_entity_type(s@.skip(i as int)) == Some(
                (p.0, s@.skip(p.1 as int)),
            ),
            None => p_entity_type(s@.skip(i as int)) is None,
        },
{
    match parse_jstr(s, i) {
        Some((t, j)) => {
            if eq_lit(&t, "Billing") {
                Some((FhirContactEntityType::Billing, j))
            } else if eq_lit(&t, "Administrative") {
                Some((FhirContactEntityType::Administrative, j))
            } else if eq_lit(&t, "HumanResource") {
                Some((FhirContactEntityType::HumanResource, j))
            } else if eq_lit(&t, "Payor") {
                Some((FhirContactEntityType::Payor, j))
            } else if eq_lit(&t, "Patient") {
                Some((FhirContactEntityType::Patient, j))
            } else if eq_lit(&t, "Press") {
                Some((FhirContactEntityType::Press, j))
            } else {
                None
            }
        },
        None => None,
    }
}

// https://www.hl7.org/fhir/valueset-appointmentstatus.html
#[derive(Debug, Clone, Copy, PartialEq, Eq, Structural)]
pub enum FhirAppointmentStatus {
    Proposed,
    Pending,
    Booked,
    Arrived,
    Fulfilled,
    Cancelled,
    Noshow,
    EnteredInError,
    CheckedIn,
    Waitlist,
}

pub open spec fn appt_status_code(e: FhirAppointmentStatus) -> Seq<char> {
    match e {
        FhirAppointmentStatus::Proposed => "Proposed"@,
        FhirAppointmentStatus::Pending => "Pending"@,
        FhirAppointmentStatus::Booked => "Booked"@,
        FhirAppointmentStatus::Arrived => "Arrived"@,
        FhirAppointmentStatus::Fulfilled => "Fulfilled"@,
        FhirAppointmentStatus::Cancelled => "Cancelled"@,
        FhirAppointmentStatus::Noshow => "Noshow"@,
        FhirAppointmentStatus::EnteredInError => "EnteredInError"@,
        FhirAppointmentStatus::CheckedIn => "CheckedIn"@,
        FhirAppointmentStatus::Waitlist => "Waitlist"@,
    }
}

pub open spec fn appt_status_from_code(s: Seq<char>) -> Option<FhirAppointmentStatus> {
    if s == "Proposed"@ {
        Some(FhirAppointmentStatus::Proposed)
    } else
    if s == "Pending"@ {
        Some(FhirAppointmentStatus::Pending)
    } else
    if s == "Booked"@ {
        Some(FhirAppointmentStatus::Booked)
    } else
    if s == "Arrived"@ {
        Some(FhirAppointmentStatus::Arrived)
    } else
    if s == "Fulfilled"@ {
        Some(FhirAppointmentStatus::Fulfilled)
    } else
    if s == "Cancelled"@ {
        Some(FhirAppointmentStatus::Cancelled)
    } else
    if s == "Noshow"@ {
        Some(FhirAppointmentStatus::Noshow)
    } else
    if s == "EnteredInError"@ {
        Some(FhirAppointmentStatus::EnteredInError)
    } else
    if s == "CheckedIn"@ {
        Some(FhirAppointmentStatus::CheckedIn)
    } else
    if s == "Waitlist"@ {
        Some(FhirAppointmentStatus::Waitlist)
    } else {
        None
    }
}

pub open spec fn p_appt_status(s: Seq<char>) -> Option<(FhirAppointmentStatus, Seq<char>)> {
    match p_jstr(s) {
        Some((t, r)) => match appt_status_from_code(t) {
            Some(e) => Some((e, r)),
            None => None,
        },
        None => None,
    }
}

pub proof fn lemma_appt_status_roundtrip(e: FhirAppointmentStatus, rest: Seq<char>)
    ensures
        p_appt_status(jstr(appt_status_code(e)) + rest) == Some((e, rest)),
{
    reveal_strlit("Proposed");
    reveal_strlit("Pending");
    reveal_strlit("Booked");
    reveal_strlit("Arrived");
    reveal_strlit("Fulfilled");
    reveal_strlit("Cancelled");
    reveal_strlit("Noshow");
    reveal_strlit("EnteredInError");
    reveal_strlit("CheckedIn");
    reveal_strlit("Waitlist");
    lemma_p_jstr(appt_status_code(e), rest);
    assert("Arrived"@[0] != "Pending"@[0]);
    assert("Arrived"@ != "Pending"@);
    assert("Noshow"@[0] != "Booked"@[0]);
    assert("Noshow"@ != "Booked"@);
    assert("Cancelled"@[0] != "Fulfilled"@[0]);
    assert("Cancelled"@ != "Fulfilled"@);
    assert("CheckedIn"@[0] != "Fulfilled"@[0]);
    assert("CheckedIn"@ != "Fulfilled"@);
    assert("CheckedIn"@[1] != "Cancelled"@[1]);
    assert("CheckedIn"@ != "Cancelled"@);
    assert("Waitlist"@[0] != "Proposed"@[0]);
    assert("Waitlist"@ != "Proposed"@);
}

impl FhirAppointmentStatus {
    /// The PascalCase code of this value on the wire.
    pub fn to_str(&self) -> (r: &str)
        ensures
            r@ == appt_status_code(*self),
    {
        match self {
            FhirAppointmentStatus::Proposed => "Proposed",
            FhirAppointmentStatus::Pending => "Pending",
            FhirAppointmentStatus::Booked => "Booked",
            FhirAppointmentStatus::Arrived => "Arrived",
            FhirAppointmentStatus::Fulfilled => "Fulfilled",
            FhirAppointmentStatus::Cancelled => "Cancelled",
            FhirAppointmentStatus::Noshow => "Noshow",
            FhirAppointmentStatus::EnteredInError => "EnteredInError",
            FhirAppointmentStatus::CheckedIn => "CheckedIn",
            FhirAppointmentStatus::Waitlist => "Waitlist",
        }
    }

    /// The Spanish display label of this value.
    pub fn to_spanish_str(&self) -> (r: &str)
        ensures
            r@ == appt_status_spanish(*self),
    {
        match self {
            FhirAppointmentStatus::Proposed => "Propuesto",
            FhirAppointmentStatus::Pending => "Pendiente",
            FhirAppointmentStatus::Booked => "Reservado",
            FhirAppointmentStatus::Arrived => "Llegado",
            FhirAppointmentStatus::Fulfilled => "Cumplido",
            FhirAppointmentStatus::Cancelled => "Cancelado",
            FhirAppointmentStatus::Noshow => "No presentado",
            FhirAppointmentStatus::EnteredInError => "Ingresado por error",
            FhirAppointmentStatus::CheckedIn => "Registrado",
            FhirAppointmentStatus::Waitlist => "Lista de espera",
        }
    }
}

pub open spec fn appt_status_spanish(e: FhirAppointmentStatus) -> Seq<char> {
    match e {
        FhirAppointmentStatus::Proposed => "Propuesto"@,
        FhirAppointmentStatus::Pending => "Pendiente"@,
        FhirAppointmentStatus::Booked => "Reservado"@,
        FhirAppointmentStatus::Arrived => "Llegado"@,
        FhirAppointmentStatus::Fulfilled => "Cumplido"@,
        FhirAppointmentStatus::Cancelled => "Cancelado"@,
        FhirAppointmentStatus::Noshow => "No presentado"@,
        FhirAppointmentStatus::EnteredInError => "Ingresado por error"@,
        FhirAppointmentStatus::CheckedIn => "Registrado"@,
        FhirAppointmentStatus::Waitlist => "Lista de espera"@,
    }
}

pub fn parse_appt_status(s: &Vec<char>, i: usize) -> (r: Option<(FhirAppointmentStatus, usize)>)
    requires
        i <= s@.len(),
    ensures
        match r {
            Some(p) => p.1 <= s@.len() && p_appt_status(s@.skip(i as int)) == Some(
                (p.0, s@.skip(p.1 as int)),
            ),
            None => p_appt_status(s@.skip(i as int)) is None,
        },
{
    match parse_jstr(s, i) {
        Some((t, j)) => {
            if eq_lit(&t, "Proposed") {
                Some((FhirAppointmentStatus::Proposed, j))
            } else if eq_lit(&t, "Pending") {
                Some((FhirAppointmentStatus::Pending, j))
            } else if eq_lit(&t, "Booked") {
                Some((FhirAppointmentStatus::Booked, j))
            } else if eq_lit(&t, "Arrived") {
                Some((FhirAppointmentStatus::Arrived, j))
            } else if eq_lit(&t, "Fulfilled") {
                Some((FhirAppointmentStatus::Fulfilled, j))
            } else if eq_lit(&t, "Cancelled") {
                Some((FhirAppointmentStatus::Cancelled, j))
            } else if eq_lit(&t, "Noshow") {
                Some((FhirAppointmentStatus::Noshow, j))
            } else if eq_lit(&t, "EnteredInError") {
                Some((FhirAppointmentStatus::EnteredInError, j))
            } else if eq_lit(&t, "CheckedIn") {
                Some((FhirAppointmentStatus::CheckedIn, j))
            } else if eq_lit(&t, "Waitlist") {
                Some((FhirAppointmentStatus::Waitlist, j))
            } else {
                None
            }
        },
        None => None,
    }
}

// https://www.hl7.org/fhir/valueset-appointmentresponse-status.html
#[derive(Debug, Clone, Copy, PartialEq, Eq, Structural)]
pub enum FhirAppointmentResponseStatus {
    Accepted,
    Declined,
    Tentative,
    NeedsAction,
    EnteredInError,
}

pub open spec fn resp_status_code(e: FhirAppointmentResponseStatus) -> Seq<char> {
    match e {
        FhirAppointmentResponseStatus::Accepted => "Accepted"@,
        FhirAppointmentResponseStatus::Declined => "Declined"@,
        FhirAppointmentResponseStatus::Tentative => "Tentative"@,
        FhirAppointmentResponseStatus::NeedsAction => "NeedsAction"@,
        FhirAppointmentResponseStatus::EnteredInError => "EnteredInError"@,
    }
}

pub open spec fn resp_status_from_code(s: Seq<char>) -> Option<FhirAppointmentResponseStatus> {
    if s == "Accepted"@ {
        Some(FhirAppointmentResponseStatus::Accepted)
    } else
    if s == "Declined"@ {
        Some(FhirAppointmentResponseStatus::Declined)
    } else
    if s == "Tentative"@ {
        Some(FhirAppointmentResponseStatus::Tentative)
    } else
    if s == "NeedsAction"@ {
        Some(FhirAppointmentResponseStatus::NeedsAction)
    } else
    if s == "EnteredInError"@ {
        Some(FhirAppointmentResponseStatus::EnteredInError)
    } else {
        None
    }
}

pub open spec fn p_resp_status(s: Seq<char>) -> Option<(FhirAppointmentResponseStatus, Seq<char>)> {
    match p_jstr(s) {
        Some((t, r)) => match resp_status_from_code(t) {
            Some(e) => Some((e, r)),
            None => None,
        },
        None => None,
    }
}

pub proof fn lemma_resp_status_roundtrip(e: FhirAppointmentResponseStatus, rest: Seq<char>)
    ensures
        p_resp_status(jstr(resp_status_code(e)) + rest) == Some((e, rest)),
{
    reveal_strlit("Accepted");
    reveal_strlit("Declined");
    reveal_strlit("Tentative");
    reveal_strlit("NeedsAction");
    reveal_strlit("EnteredInError");
    lemma_p_jstr(resp_status_code(e), rest);
}

impl FhirAppointmentResponseStatus {
    /// The PascalCase code of this value on the wire.
    pub fn to_str(&self) -> (r: &str)
        ensures
            r@ == resp_status_code(*self),
    {
        match self {
            FhirAppointmentResponseStatus::Accepted => "Accepted",
            FhirAppointmentResponseStatus::Declined => "Declined",
            FhirAppointmentResponseStatus::Tentative => "Tentative",
            FhirAppointmentResponseStatus::NeedsAction => "NeedsAction",
            FhirAppointmentResponseStatus::EnteredInError => "EnteredInError",
        }
    }

    /// The Spanish display label of this value.
    pub fn to_spanish_str(&self) -> (r: &str)
        ensures
            r@ == resp_status_spanish(*self),
    {
        match self {
            FhirAppointmentResponseStatus::Accepted => "Aceptado",
            FhirAppointmentResponseStatus::Declined => "Rechazado",
            FhirAppointmentResponseStatus::Tentative => "Tentativo",
            FhirAppointmentResponseStatus::NeedsAction => "Necesita acción",
            FhirAppointmentResponseStatus::EnteredInError => "Ingresado por error",
        }
    }
}

pub open spec fn resp_status_spanish(e: FhirAppointmentResponseStatus) -> Seq<char> {
    match e {
        FhirAppointmentResponseStatus::Accepted => "Aceptado"@,
        FhirAppointmentResponseStatus::Declined => "Rechazado"@,
        FhirAppointmentResponseStatus::Tentative => "Tentativo"@,
        FhirAppointmentResponseStatus::NeedsAction => "Necesita acción"@,
        FhirAppointmentResponseStatus::EnteredInError => "Ingresado por error"@,
    }
}

pub fn parse_resp_status(s: &Vec<char>, i: usize) -> (r: Option<(FhirAppointmentResponseStatus, usize)>)
    requires
        i <= s@.len(),
    ensures
        match r {
            Some(p) => p.1 <= s@.len() && p_resp_status(s@.skip(i as int)) == Some(
                (p.0, s@.skip(p.1 as int)),
            ),
            None => p_resp_status(s@.skip(i as int)) is None,
        },
{
    match parse_jstr(s, i) {
        Some((t, j)) => {
            if eq_lit(&t, "Accepted") {
                Some((FhirAppointmentResponseStatus::Accepted, j))
            } else if eq_lit(&t, "Declined") {
                Some((FhirAppointmentResponseStatus::Declined, j))
            } else if eq_lit(&t, "Tentative") {
                Some((FhirAppointmentResponseStatus::Tentative, j))
            } else if eq_lit(&t, "NeedsAction") {
                Some((FhirAppointmentResponseStatus::NeedsAction, j))
            } else if eq_lit(&t, "EnteredInError") {
                Some((FhirAppointmentResponseStatus::EnteredInError, j))
            } else {
                None
            }
        },
        None => None,
    }
}

/// An open-ended specialty catalogue entry, carried as an opaque coded string.
#[derive(Debug, Clone, PartialEq, Eq)]
pub struct FhirSpecialty(pub String);

impl View for FhirSpecialty {
    type V = Seq<char>;

    open spec fn view(&self) -> Seq<char> {
        self.0@
    }
}

} // verus!
