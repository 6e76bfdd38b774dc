//! The resource capability and the envelope: the error kinds, the FHIR
//! identity artefacts (`Identifier`, `Text`, `Reference`), the `FhirResource`
//! contract every concrete resource implements, and the `IgnisResource`
//! envelope that binds a resource value to its signed event and origin relay.

use vstd::prelude::*;
use vstd::string::StringExecFns;
use nostro2::keypair::NostrKeypair;
use nostro2::notes::NostrNote;
use crate::jsontext::{jstr, p_jstr, lemma_p_jstr, parse_jstr, write_jstr, p_lit, lemma_p_lit,
    expect_lit, push_lit, jarr, jitems, p_arr, p_items, prepend_items, lemma_prepend_items_assoc,
    lemma_jitems_push, lemma_p_arr};
use crate::jsonval::chars_to_string;
use crate::datatypes::self_str;
use crate::nostr::{keys_pubkey, note_pubkey, note_kind, note_content, note_id, nip44_plaintext,
    keys_public_key, new_note, sign_note, encrypt_sign_note, decrypt_note_content, note_get_pubkey,
    note_get_id, note_get_content_chars};

verus! {

/// The error kinds of the library.
#[derive(Debug, Clone, Copy, PartialEq, Eq, Structural)]
pub enum FhirError {
    /// The operation needs a signed event, and the envelope has none.
    Unsigned,
    /// An identifier was requested with no origin relay recorded.
    NoRelay,
    /// The event content does not parse as the expected resource.
    Malformed,
    /// Decryption of the event content failed.
    Decrypt,
    /// The signing primitive reported failure.
    CryptoSign,
}

impl FhirError {
    /// A short description of the error.
    pub fn message(&self) -> (r: &str)
        ensures
            r@ == err_message(*self),
    {
        match self {
            FhirError::Unsigned => "Resource has not been signed yet.",
            FhirError::NoRelay => "No origin relay has been recorded.",
            FhirError::Malformed => "Event content does not parse as this resource.",
            FhirError::Decrypt => "Decryption failed.",
            FhirError::CryptoSign => "Signing failed.",
        }
    }
}

/// The short description of each error kind.
pub open spec fn err_message(e: FhirError) -> Seq<char> {
    match e {
        FhirError::Unsigned => "Resource has not been signed yet."@,
        FhirError::NoRelay => "No origin relay has been recorded."@,
        FhirError::Malformed => "Event content does not parse as this resource."@,
        FhirError::Decrypt => "Decryption failed."@,
        FhirError::CryptoSign => "Signing failed."@,
    }
}

/// The narrative wrapper every resource text carries.
pub open spec fn div_wrap(body: Seq<char>) -> Seq<char> {
    "<div xmlns=\"http://www.w3.org/1999/xhtml\">"@ + body + "</div>"@
}

/// The human-readable narrative of a resource.
#[derive(Debug, Clone, PartialEq, Eq)]
pub struct FhirText {
    pub status: String,
    pub div: String,
}

#[verifier::ext_equal]
pub ghost struct TextV {
    pub status: Seq<char>,
    pub div: Seq<char>,
}

impl View for FhirText {
    type V = TextV;

    open spec fn view(&self) -> TextV {
        TextV { status: self.status@, div: self.div@ }
    }
}

impl FhirText {
    /// A generated narrative holding `div_text` inside the XHTML wrapper.
    pub fn new(div_text: String) -> (r: Self)
        ensures
            r@.status == "generated"@,
            r@.div == div_wrap(div_text@),
    {
        let mut div = String::new();
        div.append("<div xmlns=\"http://www.w3.org/1999/xhtml\">");
        div.append(div_text.as_str());
        div.append("</div>");
        let status = String::new().concat("generated");
        proof {
            assert(status@ =~= "generated"@);
            assert(div@ =~= div_wrap(div_text@));
        }
        FhirText { status, div }
    }
}

pub open spec fn text_json(t: TextV) -> Seq<char> {
    "{\"status\":"@ + jstr(t.status) + ",\"div\":"@ + jstr(t.div) + "}"@
}

pub fn write_text(out: &mut Vec<char>, t: &FhirText) -> (u: ())
    ensures
        final(out)@ == old(out)@ + text_json(t@),
{
    push_lit(out, "{\"status\":");
    write_jstr(out, self_str(&t.status));
    push_lit(out, ",\"div\":");
    write_jstr(out, self_str(&t.div));
    push_lit(out, "}");
    proof {
        assert(out@ =~= old(out)@ + text_json(t@));
    }
}

/// A `{system, value}` pair naming a resource across systems.
#[derive(Debug, Clone, PartialEq, Eq)]
pub struct FhirIdentifier {
    pub system: String,
    pub value: String,
}

#[verifier::ext_equal]
pub ghost struct IdentV {
    pub system: Seq<char>,
    pub value: Seq<char>,
}

impl View for FhirIdentifier {
    type V = IdentV;

    open spec fn view(&self) -> IdentV {
        IdentV {
            system: self.system@,
            value: self.value@,
        }
    }
}

pub open spec fn ident_json(v: IdentV) -> Seq<char> {
    "{\"system\":"@ + jstr(v.system) + ",\"value\":"@ + jstr(v.value) + "}"@
}

pub open spec fn f_ident() -> spec_fn(IdentV) -> Seq<char> {
    |v: IdentV| ident_json(v)
}

pub open spec fn pf_ident() -> spec_fn(Seq<char>) -> Option<(IdentV, Seq<char>)> {
    |s: Seq<char>| p_ident(s)
}

pub open spec fn p_ident(s: Seq<char>) -> Option<(IdentV, Seq<char>)> {
    match p_lit(s, "{\"system\":"@) {
        Some(s1) => match p_jstr(s1) {
            Some((x_system, s2)) => match p_lit(s2, ",\"value\":"@) {
                Some(s3) => match p_jstr(s3) {
                    Some((x_value, s4)) => match p_lit(s4, "}"@) {
                        Some(s5) => Some((
                            IdentV {
                                system: x_system,
                                value: x_value,
                            },
                            s5,
                        )),
                        None => None,
                    },
                    None => None,
                },
                None => None,
            },
            None => None,
        },
        None => None,
    }
}

pub proof fn lemma_p_ident(v: IdentV, rest: Seq<char>)
    ensures
        p_ident(ident_json(v) + rest) == Some((v, rest)),
{
    let c1 = jstr(v.system);
    let c2 = jstr(v.value);
    let t4 = "}"@ + rest;
    let t3 = c2 + t4;
    let t2 = ",\"value\":"@ + t3;
    let t1 = c1 + t2;
    let t0 = "{\"system\":"@ + t1;
    vstd::seq_lib::lemma_concat_associative("{\"system\":"@ + c1 + ",\"value\":"@ + c2, "}"@, rest);
    vstd::seq_lib::lemma_concat_associative("{\"system\":"@ + c1 + ",\"value\":"@, c2, t4);
    vstd::seq_lib::lemma_concat_associative("{\"system\":"@ + c1, ",\"value\":"@, t3);
    vstd::seq_lib::lemma_concat_associative("{\"system\":"@, c1, t2);
    assert(ident_json(v) + rest == t0);
    lemma_p_lit("{\"system\":"@, t1);
    lemma_p_jstr(v.system, t2);
    lemma_p_lit(",\"value\":"@, t3);
    lemma_p_jstr(v.value, t4);
    lemma_p_lit("}"@, rest);
    assert(p_ident(t0) == Some((IdentV { system: v.system, value: v.value }, rest)));
    assert(IdentV { system: v.system, value: v.value } =~= v);
}

pub fn write_ident(out: &mut Vec<char>, x: &FhirIdentifier) -> (u: ())
    ensures
        final(out)@ == old(out)@ + ident_json(x@),
{
    push_lit(out, "{\"system\":");
    write_jstr(out, self_str(&x.system));
    push_lit(out, ",\"value\":");
    write_jstr(out, self_str(&x.value));
    push_lit(out, "}");
    proof {
        vstd::seq_lib::lemma_concat_associative(old(out)@, "{\"system\":"@, jstr(x@.system));
        vstd::seq_lib::lemma_concat_associative(old(out)@, "{\"system\":"@ + jstr(x@.system), ",\"value\":"@);
        vstd::seq_lib::lemma_concat_associative(old(out)@, "{\"system\":"@ + jstr(x@.system) + ",\"value\":"@, jstr(x@.value));
        vstd::seq_lib::lemma_concat_associative(old(out)@, "{\"system\":"@ + jstr(x@.system) + ",\"value\":"@ + jstr(x@.value), "}"@);
        assert(out@ == old(out)@ + ident_json(x@));
    }
}

pub fn parse_ident(s: &Vec<char>, i: usize) -> (r: Option<(FhirIdentifier, usize)>)
    requires
        i <= s@.len(),
    ensures
        match r {
            Some(p) => p.1 <= s@.len() && p_ident(s@.skip(i as int)) == Some(
                (p.0@, s@.skip(p.1 as int)),
            ),
            None => p_ident(s@.skip(i as int)) is None,
        },
{
    let j = match expect_lit(s, i, "{\"system\":") {
        Some(j) => j,
        None => {
            return None;
        },
    };
    let (x_system, j) = match parse_jstr(s, j) {
        Some(x) => x,
        None => {
            return None;
        },
    };
    let j = match expect_lit(s, j, ",\"value\":") {
        Some(j) => j,
        None => {
            return None;
        },
    };
    let (x_value, j) = match parse_jstr(s, j) {
        Some(x) => x,
        None => {
            return None;
        },
    };
    let j = match expect_lit(s, j, "}") {
        Some(j) => j,
        None => {
            return None;
        },
    };
    let ret = FhirIdentifier {
        system: chars_to_string(x_system),
        value: chars_to_string(x_value),
    };
    proof {
        assert(ret@ =~= IdentV {
            system: x_system@,
            value: x_value@,
        });
    }
    Some((ret, j))
}


pub proof fn lemma_p_arr_ident(items: Seq<IdentV>, rest: Seq<char>)
    ensures
        p_arr(jarr(items, f_ident()) + rest, pf_ident()) == Some((items, rest)),
{
    assert forall|v: IdentV, rr: Seq<char>| items.contains(v) implies #[trigger] pf_ident()(
        f_ident()(v) + rr,
    ) == Some((v, rr)) by {
        lemma_p_ident(v, rr);
    }
    assert forall|v: IdentV| items.contains(v) implies (#[trigger] f_ident()(v)).len() >= 1
        && f_ident()(v)[0] != ']' by {
        first_char_ident(v);
    }
    lemma_p_arr(items, rest, f_ident(), pf_ident());
}

proof fn first_char_ident(v: IdentV)
    ensures
        ident_json(v).len() >= 1,
        ident_json(v)[0] == '{',
{
    reveal_strlit("{\"system\":");
    assert(ident_json(v)[0] == "{\"system\":"@[0]);
}

pub fn write_ident_arr(out: &mut Vec<char>, items: &Vec<FhirIdentifier>) -> (u: ())
    ensures
        final(out)@ == old(out)@ + jarr(items@.map_values(|e: FhirIdentifier| e@), f_ident()),
{
    out.push('[');
    let mut k: usize = 0;
    while k < items.len()
        invariant
            k <= items.len(),
            out@ == old(out)@ + seq!['['] + jitems(
                items@.map_values(|e: FhirIdentifier| e@).take(k as int),
                f_ident(),
            ),
        decreases items.len() - k,
    {
        if k > 0 {
            out.push(',');
        }
        write_ident(out, &items[k]);
        proof {
            let dv = items@.map_values(|e: FhirIdentifier| e@);
            assert(dv.take(k + 1) =~= dv.take(k as int).push(dv[k as int]));
            lemma_jitems_push(dv.take(k as int), dv[k as int], f_ident());
            assert(f_ident()(dv[k as int]) == ident_json(items[k as int]@));
            assert(out@ =~= old(out)@ + seq!['['] + jitems(dv.take(k + 1), f_ident()));
        }
        k += 1;
    }
    out.push(']');
    proof {
        let dv = items@.map_values(|e: FhirIdentifier| e@);
        assert(dv.take(dv.len() as int) =~= dv);
        assert(out@ =~= old(out)@ + jarr(dv, f_ident()));
    }
}

pub fn parse_ident_arr(s: &Vec<char>, i: usize) -> (r: Option<(Vec<FhirIdentifier>, usize)>)
    requires
        i <= s@.len(),
    ensures
        match r {
            Some(p) => p.1 <= s@.len() && p_arr(s@.skip(i as int), pf_ident()) == Some(
                (p.0@.map_values(|e: FhirIdentifier| e@), s@.skip(p.1 as int)),
            ),
            None => p_arr(s@.skip(i as int), pf_ident()) is None,
        },
{
    let n = s.len();
    if i >= n || s[i] != '[' {
        proof {
            if s@.skip(i as int).len() >= 1 {
                assert(s@.skip(i as int)[0] == s@[i as int]);
            }
        }
        return None;
    }
    proof {
        assert(s@.skip(i as int)[0] == '[');
    }
    if i + 1 < n && s[i + 1] == ']' {
        let empty: Vec<FhirIdentifier> = Vec::new();
        proof {
            assert(s@.skip(i as int)[1] == ']');
            assert(s@.skip(i as int).skip(2) =~= s@.skip(i + 2));
            assert(empty@.map_values(|e: FhirIdentifier| e@) =~= Seq::<IdentV>::empty());
        }
        return Some((empty, i + 2));
    }
    proof {
        if s@.skip(i as int).len() >= 2 {
            assert(s@.skip(i as int)[1] == s@[i + 1]);
        }
        assert(s@.skip(i as int).skip(1) =~= s@.skip(i + 1));
    }
    let mut acc: Vec<FhirIdentifier> = Vec::new();
    let mut cur: usize = i + 1;
    proof {
        assert(acc@.map_values(|e: FhirIdentifier| e@) =~= Seq::<IdentV>::empty());
        match p_items(s@.skip(i + 1), pf_ident()) {
            Some((t, r)) => {
                assert(Seq::<IdentV>::empty() + t =~= t);
            },
            None => {},
        }
    }
    loop
        invariant
            i + 1 <= cur <= n,
            n == s@.len(),
            p_arr(s@.skip(i as int), pf_ident()) == p_items(s@.skip(i + 1), pf_ident()),
            p_items(s@.skip(i + 1), pf_ident()) == prepend_items(
                acc@.map_values(|e: FhirIdentifier| e@),
                p_items(s@.skip(cur as int), pf_ident()),
            ),
        decreases s@.len() - cur,
    {
        let ghost scur = s@.skip(cur as int);
        match parse_ident(s, cur) {
            None => {
                return None;
            },
            Some((t, j)) => {
                if j <= cur {
                    proof {
                        assert(s@.skip(j as int).len() >= scur.len());
                        assert(p_items(scur, pf_ident()) is None);
                    }
                    return None;
                }
                proof {
                    assert(s@.skip(j as int).len() < scur.len());
                }
                let ghost dv0 = acc@.map_values(|e: FhirIdentifier| e@);
                let ghost tv = t@;
                acc.push(t);
                proof {
                    assert(acc@.map_values(|e: FhirIdentifier| e@) =~= dv0.push(tv));
                }
                if j < n && s[j] == ',' {
                    proof {
                        let rj = s@.skip(j as int);
                        assert(rj[0] == ',');
                        assert(rj.skip(1) =~= s@.skip(j + 1));
                        assert(p_items(scur, pf_ident()) == prepend_items(
                            seq![tv],
                            p_items(s@.skip(j + 1), pf_ident()),
                        ));
                        lemma_prepend_items_assoc(
                            dv0,
                            seq![tv],
                            p_items(s@.skip(j + 1), pf_ident()),
                        );
                        assert(dv0 + seq![tv] =~= dv0.push(tv));
                    }
                    cur = j + 1;
                } else if j < n && s[j] == ']' {
                    proof {
                        let rj = s@.skip(j as int);
                        assert(rj[0] == ']');
                        assert(rj.skip(1) =~= s@.skip(j + 1));
                        assert(p_items(scur, pf_ident()) == Some((seq![tv], s@.skip(j + 1))));
                        assert(dv0 + seq![tv] =~= dv0.push(tv));
                    }
                    return Some((acc, j + 1));
                } else {
                    proof {
                        let rj = s@.skip(j as int);
                        if rj.len() >= 1 {
                            assert(rj[0] == s@[j as int]);
                        }
                        assert(p_items(scur, pf_ident()) is None);
                    }
                    return None;
                }
            },
        }
    }
}



impl FhirIdentifier {
    pub fn new(system: String, value: String) -> (r: Self)
        ensures
            r@.system == system@,
            r@.value == value@,
    {
        FhirIdentifier { system, value }
    }

    /// An identical copy.
    pub fn dup(&self) -> (r: Self)
        ensures
            r@ == self@,
    {
        let r = FhirIdentifier { system: self.system.clone(), value: self.value.clone() };
        proof {
            assert(r@ =~= self@);
        }
        r
    }
}

/// What every concrete resource provides: its protocol kind code, its FHIR
/// resource-type tag, its narrative, its canonical JSON text and the parser of
/// that text, with the proof that the two round-trip.
pub trait FhirResource: View + Sized {
    /// The protocol kind code of this resource type.
    spec fn kind_spec() -> u32;

    /// The FHIR resource-type tag.
    spec fn rtype_spec() -> Seq<char>;

    /// The canonical JSON text of a resource value.
    spec fn json_of(v: Self::V) -> Seq<char>;

    /// The whole-text parser of the canonical JSON.
    spec fn parse_of(s: Seq<char>) -> Option<Self::V>;

    /// The narrative body of a resource value.
    spec fn div_of(v: Self::V) -> Seq<char>;

    /// Well-formedness of a view: every opaque extension payload it carries
    /// reparses to a value with the same canonical text. A payload can fail
    /// this: the outside deserializer enforces a nesting limit that the
    /// serializer does not. `crate::jsonval::value_reparses` decides it.
    spec fn wf(v: Self::V) -> bool;

    /// The canonical JSON of a well-formed value parses back to that value.
    proof fn lemma_roundtrip(v: Self::V)
        requires
            Self::wf(v),
        ensures
            Self::parse_of(Self::json_of(v)) == Some(v),
    ;

    /// The canonical JSON is a JSON object: it opens with a brace and a key.
    proof fn lemma_json_shape(v: Self::V)
        ensures
            Self::json_of(v).len() >= 2,
            Self::json_of(v)[0] == '{',
            Self::json_of(v)[1] == '"',
    ;

    /// The protocol kind code.
    fn nostr_kind(&self) -> (r: u32)
        ensures
            r == Self::kind_spec(),
    ;

    /// The FHIR resource-type tag.
    fn resource_type(&self) -> (r: &str)
        ensures
            r@ == Self::rtype_spec(),
    ;

    /// The synthesized narrative.
    fn text(&self) -> (r: FhirText)
        ensures
            r@.status == "generated"@,
            r@.div == div_wrap(Self::div_of(self@)),
    ;

    /// The canonical JSON text of this value.
    fn to_json(&self) -> (r: Vec<char>)
        ensures
            r@ == Self::json_of(self@),
    ;

    /// Parse a whole text as this resource.
    fn from_json(s: &Vec<char>) -> (r: Option<Self>)
        ensures
            match r {
                Some(x) => Self::parse_of(s@) == Some(x@) && Self::wf(x@),
                None => Self::parse_of(s@) is None,
            },
    ;

    /// An identical copy of this value.
    fn dup(&self) -> (r: Self)
        ensures
            r@ == self@,
    ;
}

/// The canonical JSON of a well-formed resource parses back to the same
/// value: contents written by signing are recovered exactly by the envelope's
/// readers. Well-formedness asks only that every opaque extension payload
/// reparses, which `crate::jsonval::value_reparses` decides before a payload
/// enters the library.
pub proof fn lemma_content_roundtrip<T: FhirResource>(v: T::V)
    requires
        T::wf(v),
    ensures
        T::parse_of(T::json_of(v)) == Some(v),
{
    T::lemma_roundtrip(v);
}

/// A FHIR reference carrying the referenced resource by value.
#[derive(Debug, Clone, PartialEq, Eq)]
pub struct FhirReference<T> {
    pub reference: String,
    pub identifier: Vec<FhirIdentifier>,
    pub display: String,
    pub reference_type: Option<T>,
}

#[verifier::ext_equal]
pub ghost struct RefV<V> {
    pub reference: Seq<char>,
    pub identifier: Seq<IdentV>,
    pub display: Seq<char>,
    pub reference_type: Option<V>,
}

pub open spec fn opt_res_view<T: FhirResource>(o: Option<T>) -> Option<T::V> {
    match o {
        None => None,
        Some(x) => Some(x@),
    }
}

impl<T: FhirResource> View for FhirReference<T> {
    type V = RefV<T::V>;

    open spec fn view(&self) -> RefV<T::V> {
        RefV {
            reference: self.reference@,
            identifier: self.identifier@.map_values(|e: FhirIdentifier| e@),
            display: self.display@,
            reference_type: opt_res_view(self.reference_type),
        }
    }
}

impl<T: FhirResource> FhirReference<T> {
    /// A reference to `new_reference` under the id `reference_id`, with the
    /// given identifiers; the display is the referenced narrative and the
    /// `type` field carries the resource by value.
    pub fn new(new_reference: T, reference_id: String, identifier: Vec<FhirIdentifier>) -> (r:
        Self)
        ensures
            r@.reference == T::rtype_spec() + "/"@ + reference_id@,
            r@.identifier == identifier@.map_values(|e: FhirIdentifier| e@),
            r@.display == div_wrap(T::div_of(new_reference@)),
            r@.reference_type == Some(new_reference@),
    {
        let mut reference = String::new();
        reference.append(new_reference.resource_type());
        reference.append("/");
        reference.append(reference_id.as_str());
        let display = new_reference.text().div;
        proof {
            assert(reference@ =~= T::rtype_spec() + "/"@ + reference_id@);
        }
        FhirReference { reference, identifier, display, reference_type: Some(new_reference) }
    }

    /// The referenced resource carried inline, if any.
    pub fn get_reference(&self) -> (r: Option<T>)
        ensures
            match r {
                Some(x) => self@.reference_type == Some(x@),
                None => self@.reference_type is None,
            },
    {
        match &self.reference_type {
            Some(x) => Some(x.dup()),
            None => None,
        }
    }

    /// The textual `<type>/<id>` reference.
    pub fn get_reference_string(&self) -> (r: &String)
        ensures
            r@ == self@.reference,
    {
        &self.reference
    }

    /// An identical copy.
    pub fn dup(&self) -> (r: Self)
        ensures
            r@ == self@,
    {
        let r = FhirReference {
            reference: self.reference.clone(),
            identifier: dup_idents(&self.identifier),
            display: self.display.clone(),
            reference_type: match &self.reference_type {
                None => None,
                Some(x) => Some(x.dup()),
            },
        };
        proof {
            assert(r@ =~= self@);
        }
        r
    }
}

pub fn dup_idents(v: &Vec<FhirIdentifier>) -> (r: Vec<FhirIdentifier>)
    ensures
        r@.map_values(|e: FhirIdentifier| e@) == v@.map_values(|e: FhirIdentifier| e@),
{
    let mut r: Vec<FhirIdentifier> = Vec::new();
    let mut k: usize = 0;
    while k < v.len()
        invariant
            k <= v.len(),
            r@.len() == k,
            forall|j: int| 0 <= j < k ==> r@[j]@ == v@[j]@,
        decreases v.len() - k,
    {
        r.push(v[k].dup());
        k += 1;
    }
    proof {
        assert(r@.map_values(|e: FhirIdentifier| e@) =~= v@.map_values(|e: FhirIdentifier| e@));
    }
    r
}

/// The envelope: a resource value, its optional signed event, and its
/// optional origin relay. A held event always carries its id: an envelope is
/// Draft exactly when it holds no event.
pub struct IgnisResource<T: FhirResource> {
    resource: T,
    signed_note: Option<NostrNote>,
    relay: Option<String>,
}

impl<T: FhirResource> IgnisResource<T> {
    /// Every event the envelope holds carries an id.
    #[verifier::type_invariant]
    closed spec fn note_has_id(self) -> bool {
        self.signed_note matches Some(n) ==> note_id(n) is Some
    }

    /// The resource value held by the envelope.
    pub closed spec fn resource_view(&self) -> T::V {
        self.resource@
    }

    /// The signed event held by the envelope, if any.
    pub closed spec fn note(&self) -> Option<NostrNote> {
        self.signed_note
    }

    /// The origin relay recorded by the envelope, if any.
    pub closed spec fn relay_view(&self) -> Option<Seq<char>> {
        match self.relay {
            None => None,
            Some(r) => Some(r@),
        }
    }

    /// The id of the held signed event.
    pub open spec fn id_view(&self) -> Seq<char>
        recommends
            self.note() is Some,
    {
        note_id(self.note()->0)->0
    }

    pub fn new(resource: T, signed_note: Option<NostrNote>, relay: Option<String>) -> (r: Self)
        requires
            signed_note matches Some(n) ==> note_id(n) is Some,
        ensures
            r.resource_view() == resource@,
            r.note() == signed_note,
            r.relay_view() == crate::datatypes::opt_str_view(relay),
    {
        IgnisResource { resource, signed_note, relay }
    }

    pub fn get_resource(&self) -> (r: &T)
        ensures
            r@ == self.resource_view(),
    {
        &self.resource
    }

    pub fn get_pubkey(&self) -> (r: Option<String>)
        ensures
            match r {
                Some(p) => self.note() matches Some(n) && p@ == note_pubkey(n),
                None => self.note() is None,
            },
    {
        match &self.signed_note {
            Some(n) => Some(note_get_pubkey(n)),
            None => None,
        }
    }

    pub fn get_signed_note(&self) -> (r: Option<&NostrNote>)
        ensures
            match r {
                Some(n) => self.note() == Some(*n),
                None => self.note() is None,
            },
    {
        self.signed_note.as_ref()
    }

    pub fn get_resource_type(&self) -> (r: &str)
        ensures
            r@ == T::rtype_spec(),
    {
        self.resource.resource_type()
    }

    /// The event id standing as the FHIR resource id: `None` exactly in the
    /// Draft state.
    pub fn get_resource_id(&self) -> (r: Option<String>)
        ensures
            match r {
                Some(id) => self.note() is Some && id@ == self.id_view(),
                None => self.note() is None,
            },
    {
        proof {
            use_type_invariant(&*self);
        }
        match &self.signed_note {
            Some(n) => note_get_id(n),
            None => None,
        }
    }

    /// The identifier derived from the origin relay and the event id:
    /// `{system: "nostr:" + relay, value: event id}`.
    pub fn get_resource_identifier(&self) -> (r: Result<FhirIdentifier, FhirError>)
        ensures
            match r {
                Ok(id) => self.note() is Some && (self.relay_view() matches Some(rl) && id@.system
                    == "nostr:"@ + rl && id@.value == self.id_view()),
                Err(e) => (e == FhirError::Unsigned && self.note() is None) || (e
                    == FhirError::NoRelay && self.note() is Some && self.relay_view() is None),
            },
    {
        let id = match self.get_resource_id() {
            Some(id) => id,
            None => {
                return Err(FhirError::Unsigned);
            },
        };
        let relay = match &self.relay {
            Some(rl) => rl,
            None => {
                return Err(FhirError::NoRelay);
            },
        };
        let mut system = String::new();
        system.append("nostr:");
        system.append(relay.as_str());
        proof {
            assert(system@ =~= "nostr:"@ + self.relay_view()->0);
        }
        Ok(FhirIdentifier::new(system, id))
    }

    pub fn get_resource_text(&self) -> (r: FhirText)
        ensures
            r@.status == "generated"@,
            r@.div == div_wrap(T::div_of(self.resource_view())),
    {
        self.resource.text()
    }

    /// The FHIR reference to this envelope's resource: `<type>/<event id>`,
    /// the relay-derived identifier, the narrative as display, and the
    /// resource itself carried by value.
    pub fn get_resource_reference(&self) -> (r: Result<FhirReference<T>, FhirError>)
        ensures
            match r {
                Ok(fr) => self.note() is Some && (self.relay_view() matches Some(rl) && fr@.reference
                    == T::rtype_spec() + "/"@ + self.id_view() && fr@.identifier == seq![
                    IdentV { system: "nostr:"@ + rl, value: self.id_view() },
                ] && fr@.display == div_wrap(T::div_of(self.resource_view()))
                    && fr@.reference_type == Some(self.resource_view())),
                Err(e) => (e == FhirError::Unsigned && self.note() is None) || (e
                    == FhirError::NoRelay && self.note() is Some && self.relay_view() is None),
            },
    {
        let id = match self.get_resource_id() {
            Some(id) => id,
            None => {
                return Err(FhirError::Unsigned);
            },
        };
        let ident = match self.get_resource_identifier() {
            Ok(ident) => ident,
            Err(e) => {
                return Err(e);
            },
        };
        let mut idents: Vec<FhirIdentifier> = Vec::new();
        idents.push(ident);
        let r = FhirReference::new(self.resource.dup(), id, idents);
        proof {
            assert(idents@.map_values(|e: FhirIdentifier| e@) =~= seq![
                IdentV { system: "nostr:"@ + self.relay_view()->0, value: self.id_view() },
            ]);
        }
        Ok(r)
    }
}

/// The full FHIR JSON of a signed envelope: the envelope-injected identity
/// keys followed by the resource's own fields.
pub open spec fn fhir_json_text(
    rtype: Seq<char>,
    id: Seq<char>,
    ident: IdentV,
    text: TextV,
    rjson: Seq<char>,
) -> Seq<char> {
    "{\"resourceType\":"@ + jstr(rtype) + ",\"id\":"@ + jstr(id) + ",\"identifier\":"@ + ident_json(
        ident,
    ) + ",\"text\":"@ + text_json(text) + ","@ + rjson.skip(1)
}

impl<T: FhirResource> IgnisResource<T> {
    /// The canonical FHIR JSON document of a signed envelope: `resourceType`,
    /// `id`, `identifier` and `text`, then every own field of the resource.
    pub fn get_fhir_json(&self) -> (r: Result<String, FhirError>)
        ensures
            match r {
                Ok(js) => self.note() is Some && (self.relay_view() matches Some(rl) && js@
                    == fhir_json_text(
                    T::rtype_spec(),
                    self.id_view(),
                    IdentV { system: "nostr:"@ + rl, value: self.id_view() },
                    TextV {
                        status: "generated"@,
                        div: div_wrap(T::div_of(self.resource_view())),
                    },
                    T::json_of(self.resource_view()),
                )),
                Err(e) => (e == FhirError::Unsigned && self.note() is None) || (e
                    == FhirError::NoRelay && self.note() is Some && self.relay_view() is None),
            },
    {
        let id = match self.get_resource_id() {
            Some(id) => id,
            None => {
                return Err(FhirError::Unsigned);
            },
        };
        let ident = match self.get_resource_identifier() {
            Ok(ident) => ident,
            Err(e) => {
                return Err(e);
            },
        };
        let text = self.get_resource_text();
        let rjson = self.resource.to_json();
        proof {
            T::lemma_json_shape(self.resource_view());
        }
        let mut out: Vec<char> = Vec::new();
        push_lit(&mut out, "{\"resourceType\":");
        write_jstr(&mut out, self.resource.resource_type());
        push_lit(&mut out, ",\"id\":");
        write_jstr(&mut out, self_str(&id));
        push_lit(&mut out, ",\"identifier\":");
        write_ident(&mut out, &ident);
        push_lit(&mut out, ",\"text\":");
        write_text(&mut out, &text);
        push_lit(&mut out, ",");
        push_json_tail(&mut out, &rjson);
        proof {
            assert(ident@ =~= IdentV {
                system: "nostr:"@ + self.relay_view()->0,
                value: self.id_view(),
            });
            assert(text@ =~= TextV {
                status: "generated"@,
                div: div_wrap(T::div_of(self.resource_view())),
            });
            assert(Seq::<char>::empty() + "{\"resourceType\":"@ =~= "{\"resourceType\":"@);
            assert(out@ == fhir_json_text(
                T::rtype_spec(),
                self.id_view(),
                ident@,
                text@,
                T::json_of(self.resource_view()),
            ));
        }
        Ok(chars_to_string(out))
    }

    /// Sign the resource: the event's author is the signer's public key, its
    /// kind is the resource's kind code, and its content is the resource's
    /// canonical JSON. The envelope keeps the signed event.
    pub fn sign_data(&mut self, user_keys: &NostrKeypair) -> (r: NostrNote)
        ensures
            note_pubkey(r) == keys_pubkey(*user_keys),
            note_kind(r) == T::kind_spec(),
            note_content(r) == T::json_of(old(self).resource_view()),
            note_id(r) is Some,
            final(self).note() == Some(r),
            final(self).resource_view() == old(self).resource_view(),
            final(self).relay_view() == old(self).relay_view(),
    {
        let pubkey = keys_public_key(user_keys);
        let content = self.resource.to_json();
        let mut note = new_note(pubkey.as_str(), self.resource.nostr_kind(), &content);
        sign_note(user_keys, &mut note);
        let ret = note.clone();
        self.signed_note = Some(note);
        ret
    }

    /// Sign the resource with its content encrypted to `pubkey`: the event's
    /// kind and author are as in `sign_data`, and any keypair holding the
    /// recipient public key decrypts the content back to the resource's
    /// canonical JSON.
    pub fn sign_encrypted_data(&mut self, user_keys: &NostrKeypair, pubkey: String) -> (r: Result<
        NostrNote,
        FhirError,
    >)
        ensures
            match r {
                Ok(n) => note_pubkey(n) == keys_pubkey(*user_keys) && note_kind(n)
                    == T::kind_spec() && note_id(n) is Some && (forall|rk: NostrKeypair|
                    keys_pubkey(rk) == pubkey@ ==> nip44_plaintext(rk, n) == Some(
                        T::json_of(old(self).resource_view()),
                    )) && final(self).note() == Some(n),
                Err(e) => e == FhirError::CryptoSign && final(self).note() == old(self).note(),
            },
            final(self).resource_view() == old(self).resource_view(),
            final(self).relay_view() == old(self).relay_view(),
    {
        let author = keys_public_key(user_keys);
        let content = self.resource.to_json();
        let mut note = new_note(author.as_str(), self.resource.nostr_kind(), &content);
        match encrypt_sign_note(user_keys, &mut note, pubkey.as_str()) {
            Ok(()) => {
                let ret = note.clone();
                self.signed_note = Some(note);
                Ok(ret)
            },
            Err(e) => Err(e),
        }
    }

    /// Import a signed event: its content must parse as this resource's
    /// canonical JSON.
    pub fn from_signed_note(signed_note: &NostrNote, relay: Option<String>) -> (r: Result<
        Self,
        FhirError,
    >)
        requires
            note_id(*signed_note) is Some,
        ensures
            match r {
                Ok(env) => T::parse_of(note_content(*signed_note)) == Some(env.resource_view())
                    && T::wf(env.resource_view()) && env.note() == Some(*signed_note)
                    && env.relay_view() == crate::datatypes::opt_str_view(relay),
                Err(e) => e == FhirError::Malformed && T::parse_of(note_content(*signed_note))
                    is None,
            },
    {
        let content = note_get_content_chars(signed_note);
        match T::from_json(&content) {
            Some(resource) => Ok(Self::new(resource, Some(signed_note.clone()), relay)),
            None => Err(FhirError::Malformed),
        }
    }

    /// Import an encrypted signed event: decrypt its content with the
    /// recipient's keys, then parse it as this resource.
    pub fn from_encrypted_note(
        signed_note: &NostrNote,
        user_keys: &NostrKeypair,
        relay: Option<String>,
    ) -> (r: Result<Self, FhirError>)
        requires
            note_id(*signed_note) is Some,
        ensures
            match r {
                Ok(env) => nip44_plaintext(*user_keys, *signed_note) matches Some(t)
                    && T::parse_of(t) == Some(env.resource_view()) && T::wf(env.resource_view())
                    && env.note() == Some(*signed_note) && env.relay_view()
                    == crate::datatypes::opt_str_view(relay),
                Err(e) => (e == FhirError::Decrypt && nip44_plaintext(*user_keys, *signed_note)
                    is None) || (e == FhirError::Malformed && (nip44_plaintext(
                    *user_keys,
                    *signed_note,
                ) matches Some(t) && T::parse_of(t) is None)),
            },
    {
        let plaintext = match decrypt_note_content(user_keys, signed_note) {
            Ok(p) => p,
            Err(e) => {
                return Err(e);
            },
        };
        match T::from_json(&plaintext) {
            Some(resource) => Ok(Self::new(resource, Some(signed_note.clone()), relay)),
            None => Err(FhirError::Malformed),
        }
    }
}

/// Append a JSON object's text without its opening brace.
fn push_json_tail(out: &mut Vec<char>, v: &Vec<char>) -> (u: ())
    requires
        v@.len() >= 1,
    ensures
        final(out)@ == old(out)@ + v@.skip(1),
{
    let mut k: usize = 1;
    while k < v.len()
        invariant
            1 <= k <= v@.len(),
            out@ == old(out)@ + v@.subrange(1, k as int),
        decreases v@.len() - k,
    {
        out.push(v[k]);
        proof {
            assert(v@.subrange(1, k + 1) =~= v@.subrange(1, k as int) + seq![v@[k as int]]);
            assert(out@ =~= old(out)@ + v@.subrange(1, k + 1));
        }
        k += 1;
    }
    proof {
        assert(v@.subrange(1, v@.len() as int) =~= v@.skip(1));
    }
}

} // verus!
