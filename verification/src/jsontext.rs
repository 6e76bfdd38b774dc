//! Canonical JSON text: the grammar every resource serializes into and the
//! parser that reads it back. Serializers are specified by spec functions
//! that build the text of a value; parsers are specified by spec functions
//! that consume a prefix of a character sequence and return the value and the
//! unread suffix. Round-trip lemmas connect the two.

use vstd::prelude::*;
use vstd::std_specs::iter::IteratorSpec;

verus! {

// ---------------------------------------------------------------------------
// escaping of string payloads
// ---------------------------------------------------------------------------

/// Control characters are the only characters beside `"` and `\` that do not
/// stand for themselves inside a JSON string.
pub open spec fn is_ctl(c: char) -> bool {
    (c as u32) < 32
}

/// Lower-case hex digit of a nibble.
pub open spec fn hexd(n: u32) -> char {
    if n == 0 { '0' } else if n == 1 { '1' } else if n == 2 { '2' }
    else if n == 3 { '3' } else if n == 4 { '4' } else if n == 5 { '5' }
    else if n == 6 { '6' } else if n == 7 { '7' } else if n == 8 { '8' }
    else if n == 9 { '9' } else if n == 10 { 'a' } else if n == 11 { 'b' }
    else if n == 12 { 'c' } else if n == 13 { 'd' } else if n == 14 { 'e' }
    else { 'f' }
}

/// The escape of one character inside a JSON string.
pub open spec fn esc_char(c: char) -> Seq<char> {
    if c == '"' {
        seq!['\\', '"']
    } else if c == '\\' {
        seq!['\\', '\\']
    } else if is_ctl(c) {
        seq!['\\', 'u', '0', '0', hexd((c as u32) / 16), hexd((c as u32) % 16)]
    } else {
        seq![c]
    }
}

/// The escaped form of a whole string payload.
pub open spec fn escd(s: Seq<char>) -> Seq<char>
    decreases s.len(),
{
    if s.len() == 0 {
        Seq::empty()
    } else {
        esc_char(s[0]) + escd(s.skip(1))
    }
}

/// A JSON string literal: quote, escaped payload, quote.
pub open spec fn jstr(s: Seq<char>) -> Seq<char> {
    seq!['"'] + escd(s) + seq!['"']
}

pub proof fn lemma_escd_app(a: Seq<char>, b: Seq<char>)
    ensures
        escd(a + b) == escd(a) + escd(b),
    decreases a.len(),
{
    if a.len() == 0 {
        assert(a + b =~= b);
        assert(escd(a) + escd(b) =~= escd(b));
    } else {
        assert((a + b).skip(1) =~= a.skip(1) + b);
        lemma_escd_app(a.skip(1), b);
        assert(esc_char((a + b)[0]) == esc_char(a[0]));
        assert(escd(a + b) == esc_char(a[0]) + (escd(a.skip(1)) + escd(b)));
        assert(esc_char(a[0]) + (escd(a.skip(1)) + escd(b)) =~= (esc_char(a[0]) + escd(a.skip(1)))
            + escd(b));
    }
}

// ---------------------------------------------------------------------------
// spec parsers: consume a prefix, return the value and the unread suffix
// ---------------------------------------------------------------------------

/// Does `s` start with `l`?
pub open spec fn starts_with(s: Seq<char>, l: Seq<char>) -> bool {
    l.len() <= s.len() && s.take(l.len() as int) == l
}

/// Consume the exact literal `l`.
pub open spec fn p_lit(s: Seq<char>, l: Seq<char>) -> Option<Seq<char>> {
    if starts_with(s, l) {
        Some(s.skip(l.len() as int))
    } else {
        None
    }
}

pub proof fn lemma_p_lit(l: Seq<char>, rest: Seq<char>)
    ensures
        p_lit(l + rest, l) == Some(rest),
{
    assert((l + rest).take(l.len() as int) =~= l);
    assert((l + rest).skip(l.len() as int) =~= rest);
}

/// The body of a string literal after the opening quote: characters up to the
/// next unescaped quote, unescaped.
pub open spec fn p_strbody(s: Seq<char>) -> Option<(Seq<char>, Seq<char>)>
    decreases s.len(),
{
    if s.len() == 0 {
        None
    } else if s[0] == '"' {
        Some((Seq::empty(), s.skip(1)))
    } else if s[0] == '\\' {
        if s.len() >= 2 && (s[1] == '"' || s[1] == '\\') {
            match p_strbody(s.skip(2)) {
                Some((t, r)) => Some((seq![s[1]] + t, r)),
                None => None,
            }
        } else if s.len() >= 6 && s[1] == 'u' && s[2] == '0' && s[3] == '0' && is_ctl_code(
            s[4],
            s[5],
        ) {
            match p_strbody(s.skip(6)) {
                Some((t, r)) => Some((seq![ctl_of(s[4], s[5])] + t, r)),
                None => None,
            }
        } else {
            None
        }
    } else if is_ctl(s[0]) {
        None
    } else {
        match p_strbody(s.skip(1)) {
            Some((t, r)) => Some((seq![s[0]] + t, r)),
            None => None,
        }
    }
}

/// Do the two hex digits stand for a control character, in canonical form?
pub open spec fn is_ctl_code(d3: char, d4: char) -> bool {
    (d3 == '0' || d3 == '1') && exists|n: u32| n < 16 && hexd(n) == d4
}

/// The control character the two canonical hex digits stand for.
pub open spec fn ctl_of(d3: char, d4: char) -> char {
    let hi: u32 = if d3 == '0' { 0 } else { 1 };
    let lo = choose|n: u32| n < 16 && hexd(n) == d4;
    ((hi * 16 + lo) as u8) as char
}

/// A JSON string literal with both quotes.
pub open spec fn p_jstr(s: Seq<char>) -> Option<(Seq<char>, Seq<char>)> {
    if s.len() >= 1 && s[0] == '"' {
        p_strbody(s.skip(1))
    } else {
        None
    }
}

proof fn lemma_hexd_inj(a: u32, b: u32)
    requires
        a < 16,
        b < 16,
        hexd(a) == hexd(b),
    ensures
        a == b,
{
}

proof fn lemma_ctl_of_hex(c: char)
    requires
        is_ctl(c),
    ensures
        is_ctl_code(hexd((c as u32) / 16), hexd((c as u32) % 16)),
        ctl_of(hexd((c as u32) / 16), hexd((c as u32) % 16)) == c,
{
    let n = c as u32;
    assert(n < 32);
    assert(n / 16 == 0 || n / 16 == 1);
    assert(hexd(n / 16) == '0' || hexd(n / 16) == '1');
    assert(n % 16 < 16 && hexd(n % 16) == hexd(n % 16));
    let d3 = hexd(n / 16);
    let d4 = hexd(n % 16);
    let lo = choose|m: u32| m < 16 && hexd(m) == d4;
    lemma_hexd_inj(lo, n % 16);
    let hi: u32 = if d3 == '0' { 0 } else { 1 };
    assert(hi == n / 16);
    assert(hi * 16 + lo == n);
    assert(((n as u8) as char) == c);
}

/// Parsing the escaped body of `t` followed by the closing quote and any
/// suffix recovers `t` exactly.
pub proof fn lemma_p_strbody(t: Seq<char>, rest: Seq<char>)
    ensures
        p_strbody(escd(t) + seq!['"'] + rest) == Some((t, rest)),
    decreases t.len(),
{
    let s = escd(t) + seq!['"'] + rest;
    if t.len() == 0 {
        assert(escd(t) =~= Seq::<char>::empty());
        assert(s =~= seq!['"'] + rest);
        assert(s[0] == '"');
        assert(s.skip(1) =~= rest);
    } else {
        let c = t[0];
        let e = esc_char(c);
        assert(escd(t) == e + escd(t.skip(1)));
        let s2 = escd(t.skip(1)) + seq!['"'] + rest;
        assert(s =~= e + s2);
        lemma_p_strbody(t.skip(1), rest);
        if c == '"' || c == '\\' {
            assert(e == seq!['\\', c]);
            assert(s[0] == '\\' && s[1] == c);
            assert(s.skip(2) =~= s2);
            assert(seq![s[1]] + t.skip(1) =~= t);
        } else if is_ctl(c) {
            let n = c as u32;
            assert(e == seq!['\\', 'u', '0', '0', hexd(n / 16), hexd(n % 16)]);
            assert(s.len() >= 6);
            assert(s[0] == '\\' && s[1] == 'u' && s[2] == '0' && s[3] == '0');
            assert(s[4] == hexd(n / 16) && s[5] == hexd(n % 16));
            lemma_ctl_of_hex(c);
            assert(s[0] != '"');
            assert(s.skip(6) =~= s2);
            assert(seq![ctl_of(s[4], s[5])] + t.skip(1) =~= t);
        } else {
            assert(e == seq![c]);
            assert(s[0] == c);
            assert(s.skip(1) =~= s2);
            assert(seq![s[0]] + t.skip(1) =~= t);
        }
    }
}

pub proof fn lemma_p_jstr(t: Seq<char>, rest: Seq<char>)
    ensures
        p_jstr(jstr(t) + rest) == Some((t, rest)),
{
    let s = jstr(t) + rest;
    assert(s[0] == '"');
    assert(s.skip(1) =~= escd(t) + seq!['"'] + rest);
    lemma_p_strbody(t, rest);
}

// ---------------------------------------------------------------------------
// decimal numbers
// ---------------------------------------------------------------------------

pub open spec fn is_digit(c: char) -> bool {
    48 <= (c as u32) && (c as u32) <= 57
}

pub open spec fn dval(c: char) -> int {
    (c as u32) - 48
}

/// The decimal digits of `n`, most significant first.
pub open spec fn dec(n: u32) -> Seq<char>
    decreases n,
{
    if n < 10 {
        seq![hexd(n)]
    } else {
        dec(n / 10) + seq![hexd(n % 10)]
    }
}

/// The longest digit prefix of `s` and the rest.
pub open spec fn p_digits(s: Seq<char>) -> (Seq<char>, Seq<char>)
    decreases s.len(),
{
    if s.len() > 0 && is_digit(s[0]) {
        let (d, r) = p_digits(s.skip(1));
        (seq![s[0]] + d, r)
    } else {
        (Seq::empty(), s)
    }
}

/// The value of a digit string.
pub open spec fn val(ds: Seq<char>) -> int
    decreases ds.len(),
{
    if ds.len() == 0 {
        0
    } else {
        val(ds.take(ds.len() - 1)) * 10 + dval(ds[ds.len() - 1])
    }
}

pub open spec fn pow10(k: nat) -> int
    decreases k,
{
    if k == 0 {
        1
    } else {
        10 * pow10((k - 1) as nat)
    }
}

/// A canonical decimal `u32`: at least one digit, no leading zero, in range.
pub open spec fn p_u32(s: Seq<char>) -> Option<(u32, Seq<char>)> {
    let (ds, r) = p_digits(s);
    if ds.len() == 0 {
        None
    } else if ds.len() > 1 && ds[0] == '0' {
        None
    } else if val(ds) > u32::MAX {
        None
    } else {
        Some((val(ds) as u32, r))
    }
}

pub proof fn lemma_dec_shape(n: u32)
    ensures
        dec(n).len() >= 1,
        forall|i: int| 0 <= i < dec(n).len() ==> is_digit(#[trigger] dec(n)[i]),
        n > 0 ==> dec(n)[0] != '0',
        n < 10 ==> dec(n).len() == 1,
    decreases n,
{
    if n < 10 {
        assert(dec(n) == seq![hexd(n)]);
    } else {
        lemma_dec_shape(n / 10);
        assert(dec(n)[0] == dec(n / 10)[0]);
        assert(forall|i: int| 0 <= i < dec(n / 10).len() ==> is_digit(#[trigger] dec(n)[i]));
        assert(dec(n)[dec(n).len() - 1] == hexd(n % 10));
    }
}

proof fn lemma_val_dec(n: u32)
    ensures
        val(dec(n)) == n,
    decreases n,
{
    if n < 10 {
        let ds = dec(n);
        assert(ds == seq![hexd(n)]);
        assert(ds.take(0) =~= Seq::<char>::empty());
        assert(val(ds) == val(ds.take(0)) * 10 + dval(ds[0]));
    } else {
        lemma_val_dec(n / 10);
        let ds = dec(n);
        assert(ds.take(ds.len() - 1) =~= dec(n / 10));
        assert(ds[ds.len() - 1] == hexd(n % 10));
        assert(dval(hexd(n % 10)) == n % 10);
    }
}

proof fn lemma_p_digits_app(a: Seq<char>, rest: Seq<char>)
    requires
        forall|i: int| 0 <= i < a.len() ==> is_digit(#[trigger] a[i]),
        rest.len() == 0 || !is_digit(rest[0]),
    ensures
        p_digits(a + rest) == (a, rest),
    decreases a.len(),
{
    if a.len() == 0 {
        assert(a + rest =~= rest);
        if rest.len() > 0 {
            assert(!is_digit((a + rest)[0]));
        }
        assert(p_digits(a + rest) == (Seq::<char>::empty(), rest));
        assert(a =~= Seq::<char>::empty());
    } else {
        assert((a + rest)[0] == a[0]);
        assert((a + rest).skip(1) =~= a.skip(1) + rest);
        lemma_p_digits_app(a.skip(1), rest);
        assert(seq![a[0]] + a.skip(1) =~= a);
    }
}

/// Parsing the decimal text of `n` followed by a non-digit recovers `n`.
pub proof fn lemma_p_u32(n: u32, rest: Seq<char>)
    requires
        rest.len() == 0 || !is_digit(rest[0]),
    ensures
        p_u32(dec(n) + rest) == Some((n, rest)),
{
    lemma_dec_shape(n);
    lemma_val_dec(n);
    lemma_p_digits_app(dec(n), rest);
    if n == 0 {
        assert(dec(0) == seq![hexd(0)]);
        assert(dec(0).len() == 1);
    }
}

pub proof fn lemma_val_bounds(ds: Seq<char>)
    requires
        forall|i: int| 0 <= i < ds.len() ==> is_digit(#[trigger] ds[i]),
    ensures
        0 <= val(ds),
        val(ds) < pow10(ds.len() as nat),
        ds.len() >= 1 && ds[0] != '0' ==> val(ds) >= pow10((ds.len() - 1) as nat),
    decreases ds.len(),
{
    if ds.len() == 0 {
    } else {
        let front = ds.take(ds.len() - 1);
        lemma_val_bounds(front);
        let k = front.len() as nat;
        assert(val(front) < pow10(k));
        assert(val(ds) == val(front) * 10 + dval(ds[ds.len() - 1]));
        assert(val(front) * 10 <= (pow10(k) - 1) * 10) by (nonlinear_arith)
            requires val(front) <= pow10(k) - 1;
        assert(pow10(k + 1) == 10 * pow10(k));
        if ds.len() >= 1 && ds[0] != '0' {
            if ds.len() == 1 {
                assert(48u32 as char == '0');
                vstd::utf8::char_u32_cast(ds[0], ds[0] as u32);
                assert(ds[0] as u32 != 48);
                assert(dval(ds[0]) >= 1);
                assert(pow10(0nat) == 1);
            } else {
                assert(front[0] == ds[0]);
                assert(val(front) >= pow10((front.len() - 1) as nat));
                assert(val(front) * 10 >= pow10((front.len() - 1) as nat) * 10) by (nonlinear_arith)
                    requires val(front) >= pow10((front.len() - 1) as nat), pow10((front.len() - 1) as nat) > 0;
                assert(pow10((ds.len() - 1) as nat) == 10 * pow10((ds.len() - 2) as nat));
            }
        }
    }
}

// ---------------------------------------------------------------------------
// booleans and null
// ---------------------------------------------------------------------------

pub open spec fn jbool(b: bool) -> Seq<char> {
    if b {
        "true"@
    } else {
        "false"@
    }
}

pub open spec fn p_bool(s: Seq<char>) -> Option<(bool, Seq<char>)> {
    if starts_with(s, "true"@) {
        Some((true, s.skip(4)))
    } else if starts_with(s, "false"@) {
        Some((false, s.skip(5)))
    } else {
        None
    }
}

pub proof fn lemma_p_bool(b: bool, rest: Seq<char>)
    ensures
        p_bool(jbool(b) + rest) == Some((b, rest)),
{
    reveal_strlit("true");
    reveal_strlit("false");
    let s = jbool(b) + rest;
    if b {
        assert(s.take(4) =~= "true"@);
        assert(s.skip(4) =~= rest);
    } else {
        assert(s[0] == 'f');
        if starts_with(s, "true"@) {
            assert(s.take(4)[0] == 't');
            assert(false);
        }
        assert(s.take(5) =~= "false"@);
        assert(s.skip(5) =~= rest);
    }
}

// ---------------------------------------------------------------------------
// options (null or a value) and arrays
// ---------------------------------------------------------------------------

pub open spec fn jopt<V>(o: Option<V>, f: spec_fn(V) -> Seq<char>) -> Seq<char> {
    match o {
        None => "null"@,
        Some(v) => f(v),
    }
}

pub open spec fn p_opt<V>(
    s: Seq<char>,
    p: spec_fn(Seq<char>) -> Option<(V, Seq<char>)>,
) -> Option<(Option<V>, Seq<char>)> {
    if starts_with(s, "null"@) {
        Some((None, s.skip(4)))
    } else {
        match p(s) {
            Some((v, r)) => Some((Some(v), r)),
            None => None,
        }
    }
}

pub proof fn lemma_p_opt_none<V>(rest: Seq<char>, p: spec_fn(Seq<char>) -> Option<(V, Seq<char>)>)
    ensures
        p_opt("null"@ + rest, p) == Some((None::<V>, rest)),
{
    reveal_strlit("null");
    assert(("null"@ + rest).take(4) =~= "null"@);
    assert(("null"@ + rest).skip(4) =~= rest);
}

pub proof fn lemma_p_opt_some<V>(
    v: V,
    rest: Seq<char>,
    f: spec_fn(V) -> Seq<char>,
    p: spec_fn(Seq<char>) -> Option<(V, Seq<char>)>,
)
    requires
        p(f(v) + rest) == Some((v, rest)),
        f(v).len() >= 1,
        f(v)[0] != 'n',
    ensures
        p_opt(jopt(Some(v), f) + rest, p) == Some((Some(v), rest)),
{
    reveal_strlit("null");
    let s = f(v) + rest;
    if starts_with(s, "null"@) {
        assert(s.take(4)[0] == 'n');
        assert(false);
    }
}

pub open spec fn jitems<V>(items: Seq<V>, f: spec_fn(V) -> Seq<char>) -> Seq<char>
    decreases items.len(),
{
    if items.len() == 0 {
        Seq::empty()
    } else if items.len() == 1 {
        f(items[0])
    } else {
        f(items[0]) + seq![','] + jitems(items.skip(1), f)
    }
}

pub open spec fn jarr<V>(items: Seq<V>, f: spec_fn(V) -> Seq<char>) -> Seq<char> {
    seq!['['] + jitems(items, f) + seq![']']
}

pub open spec fn p_items<V>(
    s: Seq<char>,
    p: spec_fn(Seq<char>) -> Option<(V, Seq<char>)>,
) -> Option<(Seq<V>, Seq<char>)>
    decreases s.len(),
{
    match p(s) {
        Some((v, r)) => if r.len() < s.len() {
            if r.len() >= 1 && r[0] == ',' {
                match p_items(r.skip(1), p) {
                    Some((vs, r2)) => Some((seq![v] + vs, r2)),
                    None => None,
                }
            } else if r.len() >= 1 && r[0] == ']' {
                Some((seq![v], r.skip(1)))
            } else {
                None
            }
        } else {
            None
        },
        None => None,
    }
}

pub open spec fn p_arr<V>(
    s: Seq<char>,
    p: spec_fn(Seq<char>) -> Option<(V, Seq<char>)>,
) -> Option<(Seq<V>, Seq<char>)> {
    if s.len() >= 2 && s[0] == '[' && s[1] == ']' {
        Some((Seq::empty(), s.skip(2)))
    } else if s.len() >= 1 && s[0] == '[' {
        p_items(s.skip(1), p)
    } else {
        None
    }
}

proof fn lemma_p_items<V>(
    items: Seq<V>,
    rest: Seq<char>,
    f: spec_fn(V) -> Seq<char>,
    p: spec_fn(Seq<char>) -> Option<(V, Seq<char>)>,
)
    requires
        items.len() >= 1,
        forall|v: V, rr: Seq<char>| items.contains(v) ==> #[trigger] p(f(v) + rr) == Some((v, rr)),
        forall|v: V| items.contains(v) ==> (#[trigger] f(v)).len() >= 1,
    ensures
        p_items(jitems(items, f) + seq![']'] + rest, p) == Some((items, rest)),
    decreases items.len(),
{
    let s = jitems(items, f) + seq![']'] + rest;
    let v0 = items[0];
    assert(items.contains(v0));
    if items.len() == 1 {
        let rr = seq![']'] + rest;
        assert(s =~= f(v0) + rr);
        assert(p(s) == Some((v0, rr)));
        assert(rr.len() < s.len());
        assert(rr[0] == ']');
        assert(rr.skip(1) =~= rest);
        assert(seq![v0] =~= items);
    } else {
        let tail = items.skip(1);
        assert(forall|v: V| tail.contains(v) ==> items.contains(v));
        lemma_p_items(tail, rest, f, p);
        let rr = seq![','] + jitems(tail, f) + seq![']'] + rest;
        assert(s =~= f(v0) + rr);
        assert(p(s) == Some((v0, rr)));
        assert(rr.len() < s.len());
        assert(rr[0] == ',');
        assert(rr.skip(1) =~= jitems(tail, f) + seq![']'] + rest);
        assert(seq![v0] + tail =~= items);
    }
}

pub proof fn lemma_p_arr<V>(
    items: Seq<V>,
    rest: Seq<char>,
    f: spec_fn(V) -> Seq<char>,
    p: spec_fn(Seq<char>) -> Option<(V, Seq<char>)>,
)
    requires
        forall|v: V, rr: Seq<char>| items.contains(v) ==> #[trigger] p(f(v) + rr) == Some((v, rr)),
        forall|v: V| items.contains(v) ==> (#[trigger] f(v)).len() >= 1 && f(v)[0] != ']',
    ensures
        p_arr(jarr(items, f) + rest, p) == Some((items, rest)),
{
    let s = jarr(items, f) + rest;
    assert(s[0] == '[');
    if items.len() == 0 {
        assert(jitems(items, f) == Seq::<char>::empty());
        assert(s =~= seq!['[', ']'] + rest);
        assert(s[1] == ']');
        assert(s.skip(2) =~= rest);
    } else {
        assert(items.contains(items[0]));
        assert(s[1] == f(items[0])[0]);
        assert(s[1] != ']');
        assert(s.skip(1) =~= jitems(items, f) + seq![']'] + rest);
        lemma_p_items(items, rest, f, p);
    }
}

/// Named spec closures, so that every mention of the same combinator argument
/// is one term.
pub open spec fn jstr_f() -> spec_fn(Seq<char>) -> Seq<char> {
    |t: Seq<char>| jstr(t)
}

pub open spec fn pf_jstr() -> spec_fn(Seq<char>) -> Option<(Seq<char>, Seq<char>)> {
    |s: Seq<char>| p_jstr(s)
}

/// Appending one more item to a non-empty item list appends a comma and the
/// item's text.
pub proof fn lemma_jitems_push<V>(items: Seq<V>, x: V, f: spec_fn(V) -> Seq<char>)
    ensures
        items.len() == 0 ==> jitems(items.push(x), f) == f(x),
        items.len() > 0 ==> jitems(items.push(x), f) == jitems(items, f) + seq![','] + f(x),
    decreases items.len(),
{
    if items.len() == 0 {
        assert(items.push(x)[0] == x);
    } else if items.len() == 1 {
        assert(items.push(x).len() == 2);
        assert(items.push(x)[0] == items[0]);
        assert(items.push(x).skip(1) =~= seq![x]);
        assert(jitems(seq![x], f) == f(x));
        assert(jitems(items, f) == f(items[0]));
    } else {
        lemma_jitems_push(items.skip(1), x, f);
        assert(items.push(x).skip(1) =~= items.skip(1).push(x));
        assert(items.push(x)[0] == items[0]);
        assert(f(items[0]) + seq![','] + (jitems(items.skip(1), f) + seq![','] + f(x)) =~= (f(
            items[0],
        ) + seq![','] + jitems(items.skip(1), f)) + seq![','] + f(x));
    }
}

/// A successful string-body parse always consumes at least one character.
pub proof fn lemma_p_strbody_consumes(s: Seq<char>)
    ensures
        p_strbody(s) matches Some(p) ==> p.1.len() < s.len(),
    decreases s.len(),
{
    if s.len() == 0 {
    } else if s[0] == '"' {
    } else if s[0] == '\\' {
        if s.len() >= 2 && (s[1] == '"' || s[1] == '\\') {
            lemma_p_strbody_consumes(s.skip(2));
        } else if s.len() >= 6 && s[1] == 'u' && s[2] == '0' && s[3] == '0' && is_ctl_code(
            s[4],
            s[5],
        ) {
            lemma_p_strbody_consumes(s.skip(6));
        }
    } else if is_ctl(s[0]) {
    } else {
        lemma_p_strbody_consumes(s.skip(1));
    }
}

/// A successful string parse always consumes at least one character.
pub proof fn lemma_p_jstr_consumes(s: Seq<char>)
    ensures
        p_jstr(s) matches Some(p) ==> p.1.len() < s.len(),
{
    if s.len() >= 1 && s[0] == '"' {
        lemma_p_strbody_consumes(s.skip(1));
    }
}

/// Prefix an already-parsed item list onto the result of parsing the rest.
pub open spec fn prepend_items<V>(a: Seq<V>, o: Option<(Seq<V>, Seq<char>)>) -> Option<
    (Seq<V>, Seq<char>),
> {
    match o {
        Some((t, r)) => Some((a + t, r)),
        None => None,
    }
}

pub proof fn lemma_prepend_items_assoc<V>(a: Seq<V>, b: Seq<V>, o: Option<(Seq<V>, Seq<char>)>)
    ensures
        prepend_items(a, prepend_items(b, o)) == prepend_items(a + b, o),
{
    match o {
        Some((t, r)) => {
            assert(a + (b + t) =~= (a + b) + t);
        },
        None => {},
    }
}

/// Round trip of an array of JSON strings.
pub proof fn lemma_p_arr_jstr(items: Seq<Seq<char>>, rest: Seq<char>)
    ensures
        p_arr(jarr(items, jstr_f()) + rest, pf_jstr()) == Some((items, rest)),
{
    assert forall|v: Seq<char>, rr: Seq<char>| items.contains(v) implies #[trigger] pf_jstr()(
        jstr_f()(v) + rr,
    ) == Some((v, rr)) by {
        lemma_p_jstr(v, rr);
    }
    assert forall|v: Seq<char>| items.contains(v) implies (#[trigger] jstr_f()(v)).len() >= 1
        && jstr_f()(v)[0] != ']' by {
        assert(jstr(v)[0] == '"');
    }
    lemma_p_arr(items, rest, jstr_f(), pf_jstr());
}

/// One step of the item-list parser, for an element parser taken abstractly.
pub proof fn lemma_p_items_step<V>(
    s: Seq<char>,
    r: Seq<char>,
    v: V,
    p: spec_fn(Seq<char>) -> Option<(V, Seq<char>)>,
)
    requires
        p(s) == Some((v, r)),
        r.len() < s.len(),
    ensures
        r.len() >= 1 && r[0] == ',' ==> p_items(s, p) == prepend_items(
            seq![v],
            p_items(r.skip(1), p),
        ),
        r.len() >= 1 && r[0] == ']' ==> p_items(s, p) == Some((seq![v], r.skip(1))),
        r.len() == 0 || (r[0] != ',' && r[0] != ']') ==> p_items(s, p) is None,
{
}

/// The item-list parser fails where its element parser fails or stalls.
pub proof fn lemma_p_items_none<V>(s: Seq<char>, p: spec_fn(Seq<char>) -> Option<(V, Seq<char>)>)
    requires
        p(s) matches Some(q) ==> q.1.len() >= s.len(),
    ensures
        p_items(s, p) is None,
{
}

// ---------------------------------------------------------------------------
// executable building blocks
// ---------------------------------------------------------------------------

/// The characters of a string slice.
pub fn str_chars(s: &str) -> (r: Vec<char>)
    ensures
        r@ == s@,
{
    broadcast use vstd::string::axiom_spec_iter, vstd::string::next_postcondition;

    let mut it = s.chars();
    let mut r: Vec<char> = Vec::new();
    loop
        invariant
            r@ + it.remaining() == s@,
            it.decrease() is Some,
        decreases it.decrease()->0,
    {
        match it.next() {
            Some(c) => {
                r.push(c);
                proof {
                    assert(r@ + it.remaining() =~= s@);
                }
            },
            None => {
                proof {
                    assert(r@ =~= s@);
                }
                return r;
            },
        }
    }
}

pub fn push_chars(out: &mut Vec<char>, s: &Vec<char>) -> (u: ())
    ensures
        final(out)@ == old(out)@ + s@,
{
    let mut k: usize = 0;
    while k < s.len()
        invariant
            k <= s.len(),
            out@ == old(out)@ + s@.take(k as int),
        decreases s.len() - k,
    {
        out.push(s[k]);
        proof {
            assert(s@.take(k + 1) =~= s@.take(k as int) + seq![s@[k as int]]);
            assert(out@ =~= old(out)@ + s@.take(k + 1));
        }
        k += 1;
    }
    proof {
        assert(s@.take(s@.len() as int) =~= s@);
    }
}

pub fn push_lit(out: &mut Vec<char>, s: &str) -> (u: ())
    ensures
        final(out)@ == old(out)@ + s@,
{
    let cs = str_chars(s);
    push_chars(out, &cs);
}

pub fn eq_chars(a: &Vec<char>, b: &Vec<char>) -> (r: bool)
    ensures
        r == (a@ == b@),
{
    if a.len() != b.len() {
        return false;
    }
    let mut k: usize = 0;
    while k < a.len()
        invariant
            k <= a.len(),
            a@.len() == b@.len(),
            forall|j: int| 0 <= j < k ==> a@[j] == b@[j],
        decreases a.len() - k,
    {
        if a[k] != b[k] {
            return false;
        }
        k += 1;
    }
    proof {
        assert(a@ =~= b@);
    }
    true
}

pub fn eq_lit(a: &Vec<char>, lit: &str) -> (r: bool)
    ensures
        r == (a@ == lit@),
{
    let cs = str_chars(lit);
    eq_chars(a, &cs)
}

fn hexd_exec(n: u32) -> (c: char)
    requires
        n < 16,
    ensures
        c == hexd(n),
{
    if n == 0 { '0' } else if n == 1 { '1' } else if n == 2 { '2' }
    else if n == 3 { '3' } else if n == 4 { '4' } else if n == 5 { '5' }
    else if n == 6 { '6' } else if n == 7 { '7' } else if n == 8 { '8' }
    else if n == 9 { '9' } else if n == 10 { 'a' } else if n == 11 { 'b' }
    else if n == 12 { 'c' } else if n == 13 { 'd' } else if n == 14 { 'e' }
    else { 'f' }
}

/// The value of a canonical lower-case hex digit, if it is one.
fn hex_lo(c: char) -> (r: Option<u32>)
    ensures
        match r {
            Some(v) => v < 16 && hexd(v) == c,
            None => !exists|n: u32| n < 16 && hexd(n) == c,
        },
{
    let r = if c == '0' { Some(0) } else if c == '1' { Some(1) } else if c == '2' { Some(2) }
    else if c == '3' { Some(3) } else if c == '4' { Some(4) } else if c == '5' { Some(5) }
    else if c == '6' { Some(6) } else if c == '7' { Some(7) } else if c == '8' { Some(8) }
    else if c == '9' { Some(9) } else if c == 'a' { Some(10) } else if c == 'b' { Some(11) }
    else if c == 'c' { Some(12) } else if c == 'd' { Some(13) } else if c == 'e' { Some(14) }
    else if c == 'f' { Some(15) } else { None };
    proof {
        if r is None {
            assert forall|n: u32| n < 16 implies hexd(n) != c by {}
        }
    }
    r
}

/// Append the JSON string literal of `s`.
pub fn write_jstr(out: &mut Vec<char>, s: &str) -> (u: ())
    ensures
        final(out)@ == old(out)@ + jstr(s@),
{
    let cs = str_chars(s);
    write_jstr_chars(out, &cs);
}

/// Append the JSON string literal of the characters `cs`.
pub fn write_jstr_chars(out: &mut Vec<char>, cs: &Vec<char>) -> (u: ())
    ensures
        final(out)@ == old(out)@ + jstr(cs@),
{
    out.push('"');
    let mut k: usize = 0;
    while k < cs.len()
        invariant
            k <= cs.len(),
            out@ == old(out)@ + seq!['"'] + escd(cs@.take(k as int)),
        decreases cs.len() - k,
    {
        let c = cs[k];
        if c == '"' {
            out.push('\\');
            out.push('"');
        } else if c == '\\' {
            out.push('\\');
            out.push('\\');
        } else if (c as u32) < 32 {
            out.push('\\');
            out.push('u');
            out.push('0');
            out.push('0');
            out.push(hexd_exec((c as u32) / 16));
            out.push(hexd_exec((c as u32) % 16));
        } else {
            out.push(c);
        }
        proof {
            let e1 = seq![cs@[k as int]];
            assert(cs@.take(k + 1) =~= cs@.take(k as int) + e1);
            lemma_escd_app(cs@.take(k as int), e1);
            assert(e1.len() == 1 && e1[0] == cs@[k as int]);
            assert(e1.skip(1) =~= Seq::<char>::empty());
            assert(escd(e1.skip(1)) =~= Seq::<char>::empty());
            assert(escd(e1) == esc_char(e1[0]) + escd(e1.skip(1)));
            assert(escd(e1) =~= esc_char(cs@[k as int]));
            assert(escd(cs@.take(k + 1)) == escd(cs@.take(k as int)) + esc_char(cs@[k as int]));
            assert(out@ =~= old(out)@ + seq!['"'] + escd(cs@.take(k as int)) + esc_char(
                cs@[k as int],
            ));
            assert(out@ =~= old(out)@ + seq!['"'] + escd(cs@.take(k + 1)));
        }
        k += 1;
    }
    out.push('"');
    proof {
        assert(cs@.take(cs@.len() as int) =~= cs@);
        assert(out@ =~= old(out)@ + jstr(cs@));
    }
}

/// Append the decimal text of `n`.
pub fn write_u32(out: &mut Vec<char>, n: u32) -> (u: ())
    ensures
        final(out)@ == old(out)@ + dec(n),
    decreases n,
{
    if n < 10 {
        out.push(hexd_exec(n));
        proof {
            assert(out@ =~= old(out)@ + dec(n));
        }
    } else {
        write_u32(out, n / 10);
        out.push(hexd_exec(n % 10));
        proof {
            assert(out@ =~= old(out)@ + dec(n));
        }
    }
}

/// Append `true` or `false`.
pub fn write_bool(out: &mut Vec<char>, b: bool) -> (u: ())
    ensures
        final(out)@ == old(out)@ + jbool(b),
{
    if b {
        push_lit(out, "true");
    } else {
        push_lit(out, "false");
    }
}

// ---------------------------------------------------------------------------
// executable parsers, each exactly the spec parser on the unread suffix
// ---------------------------------------------------------------------------

/// Consume the literal `lit` at position `i`.
pub fn expect_lit(s: &Vec<char>, i: usize, lit: &str) -> (r: Option<usize>)
    requires
        i <= s@.len(),
    ensures
        match r {
            Some(j) => i <= j <= s@.len() && p_lit(s@.skip(i as int), lit@) == Some(
                s@.skip(j as int),
            ),
            None => p_lit(s@.skip(i as int), lit@) is None,
        },
{
    let cs = str_chars(lit);
    let n = s.len();
    if n - i < cs.len() {
        return None;
    }
    let mut k: usize = 0;
    while k < cs.len()
        invariant
            k <= cs.len(),
            n == s@.len(),
            i + cs.len() <= n,
            cs@ == lit@,
            forall|j: int| 0 <= j < k ==> s@[i + j] == cs@[j],
        decreases cs.len() - k,
    {
        if s[i + k] != cs[k] {
            proof {
                assert(s@.skip(i as int).take(lit@.len() as int)[k as int] == s@[i + k]);
            }
            return None;
        }
        k += 1;
    }
    proof {
        assert(s@.skip(i as int).take(lit@.len() as int) =~= lit@);
        assert(s@.skip(i as int).skip(lit@.len() as int) =~= s@.skip(i + lit@.len()));
    }
    Some(i + cs.len())
}

spec fn prepend_body(a: Seq<char>, o: Option<(Seq<char>, Seq<char>)>) -> Option<
    (Seq<char>, Seq<char>),
> {
    match o {
        Some((t, r)) => Some((a + t, r)),
        None => None,
    }
}

proof fn lemma_prepend_assoc(a: Seq<char>, b: Seq<char>, o: Option<(Seq<char>, Seq<char>)>)
    ensures
        prepend_body(a, prepend_body(b, o)) == prepend_body(a + b, o),
{
    match o {
        Some((t, r)) => {
            assert(a + (b + t) =~= (a + b) + t);
        },
        None => {},
    }
}

/// Parse a JSON string literal at position `i`.
pub fn parse_jstr(s: &Vec<char>, i: usize) -> (r: Option<(Vec<char>, usize)>)
    requires
        i <= s@.len(),
    ensures
        match r {
            Some(p) => p.1 <= s@.len() && p_jstr(s@.skip(i as int)) == Some(
                (p.0@, s@.skip(p.1 as int)),
            ),
            None => p_jstr(s@.skip(i as int)) is None,
        },
{
    if i >= s.len() || s[i] != '"' {
        return None;
    }
    let ghost s0 = s@.skip(i + 1);
    let mut cur: usize = i + 1;
    let mut acc: Vec<char> = Vec::new();
    loop
        invariant
            i + 1 <= cur <= s@.len(),
            s0 == s@.skip(i + 1),
            s@.skip(i as int).len() >= 1 && s@.skip(i as int)[0] == '"',
            s@.skip(i as int).skip(1) == s0,
            p_strbody(s0) == prepend_body(acc@, p_strbody(s@.skip(cur as int))),
        decreases s@.len() - cur,
    {
        let ghost scur = s@.skip(cur as int);
        if cur >= s.len() {
            proof {
                assert(scur.len() == 0);
            }
            return None;
        }
        proof {
            assert(scur[0] == s@[cur as int]);
        }
        let c = s[cur];
        if c == '"' {
            proof {
                assert(scur.skip(1) =~= s@.skip(cur + 1));
                assert(p_strbody(scur) == Some((Seq::<char>::empty(), s@.skip(cur + 1))));
                assert(acc@ + Seq::<char>::empty() =~= acc@);
            }
            return Some((acc, cur + 1));
        } else if c == '\\' {
            if cur + 1 < s.len() && (s[cur + 1] == '"' || s[cur + 1] == '\\') {
                let x = s[cur + 1];
                proof {
                    assert(scur[1] == x);
                    assert(scur.skip(2) =~= s@.skip(cur + 2));
                    assert(p_strbody(scur) == prepend_body(
                        seq![x],
                        p_strbody(s@.skip(cur + 2)),
                    ));
                    lemma_prepend_assoc(acc@, seq![x], p_strbody(s@.skip(cur + 2)));
                    assert(acc@ + seq![x] =~= acc@.push(x));
                }
                acc.push(x);
                cur = cur + 2;
            } else if s.len() - cur >= 6 && s[cur + 1] == 'u' && s[cur + 2] == '0' && s[cur + 3]
                == '0' && (s[cur + 4] == '0' || s[cur + 4] == '1') {
                match hex_lo(s[cur + 5]) {
                    Some(lo) => {
                        let hi: u32 = if s[cur + 4] == '0' { 0 } else { 1 };
                        let x = ((hi * 16 + lo) as u8) as char;
                        proof {
                            assert(scur[1] == 'u' && scur[2] == '0' && scur[3] == '0');
                            assert(scur[4] == s@[cur + 4] && scur[5] == s@[cur + 5]);
                            assert(is_ctl_code(scur[4], scur[5]));
                            let m = choose|n: u32| n < 16 && hexd(n) == scur[5];
                            lemma_hexd_inj(m, lo);
                            assert(ctl_of(scur[4], scur[5]) == x);
                            assert(scur.skip(6) =~= s@.skip(cur + 6));
                            assert(p_strbody(scur) == prepend_body(
                                seq![x],
                                p_strbody(s@.skip(cur + 6)),
                            ));
                            lemma_prepend_assoc(acc@, seq![x], p_strbody(s@.skip(cur + 6)));
                            assert(acc@ + seq![x] =~= acc@.push(x));
                        }
                        acc.push(x);
                        cur = cur + 6;
                    },
                    None => {
                        proof {
                            if cur + 5 < s@.len() {
                                assert(scur[5] == s@[cur + 5]);
                            }
                            assert(!is_ctl_code(scur[4], scur[5]));
                            assert(p_strbody(scur) is None);
                        }
                        return None;
                    },
                }
            } else {
                proof {
                    if scur.len() >= 2 {
                        assert(scur[1] == s@[cur + 1]);
                    }
                    if scur.len() >= 6 {
                        assert(scur[4] == s@[cur + 4]);
                        if scur[1] == 'u' && scur[2] == '0' && scur[3] == '0' {
                            assert(!(scur[4] == '0' || scur[4] == '1'));
                            assert(!is_ctl_code(scur[4], scur[5]));
                        }
                    }
                    assert(p_strbody(scur) is None);
                }
                return None;
            }
        } else if (c as u32) < 32 {
            proof {
                assert(p_strbody(scur) is None);
            }
            return None;
        } else {
            proof {
                assert(scur.skip(1) =~= s@.skip(cur + 1));
                assert(p_strbody(scur) == prepend_body(seq![c], p_strbody(s@.skip(cur + 1))));
                lemma_prepend_assoc(acc@, seq![c], p_strbody(s@.skip(cur + 1)));
                assert(acc@ + seq![c] =~= acc@.push(c));
            }
            acc.push(c);
            cur = cur + 1;
        }
    }
}

fn is_digit_exec(c: char) -> (r: bool)
    ensures
        r == is_digit(c),
{
    c >= '0' && c <= '9'
}

/// Parse a canonical decimal `u32` at position `i`.
pub fn parse_u32(s: &Vec<char>, i: usize) -> (r: Option<(u32, usize)>)
    requires
        i <= s@.len(),
    ensures
        match r {
            Some(p) => p.1 <= s@.len() && p_u32(s@.skip(i as int)) == Some(
                (p.0, s@.skip(p.1 as int)),
            ),
            None => p_u32(s@.skip(i as int)) is None,
        },
{
    let mut j: usize = i;
    while j < s.len() && is_digit_exec(s[j])
        invariant
            i <= j <= s@.len(),
            forall|k: int| i <= k < j ==> is_digit(#[trigger] s@[k]),
            p_digits(s@.skip(i as int)) == {
                let (d, r) = p_digits(s@.skip(j as int));
                (s@.subrange(i as int, j as int) + d, r)
            },
        decreases s@.len() - j,
    {
        proof {
            let sj = s@.skip(j as int);
            assert(sj[0] == s@[j as int]);
            assert(sj.skip(1) =~= s@.skip(j + 1));
            let (d2, r2) = p_digits(s@.skip(j + 1));
            assert(p_digits(sj) == (seq![s@[j as int]] + d2, r2));
            assert(s@.subrange(i as int, j as int) + (seq![s@[j as int]] + d2) =~= s@.subrange(
                i as int,
                j + 1,
            ) + d2);
        }
        j += 1;
    }
    proof {
        let sj = s@.skip(j as int);
        if j < s@.len() {
            assert(sj[0] == s@[j as int]);
            assert(!is_digit(sj[0]));
        }
        assert(p_digits(sj) == (Seq::<char>::empty(), sj));
        assert(s@.subrange(i as int, j as int) + Seq::<char>::empty() =~= s@.subrange(
            i as int,
            j as int,
        ));
        assert(p_digits(s@.skip(i as int)) == (s@.subrange(i as int, j as int), sj));
    }
    let ghost ds = s@.subrange(i as int, j as int);
    if j == i {
        return None;
    }
    if s[i] == '0' && j - i > 1 {
        return None;
    }
    proof {
        lemma_val_bounds(ds);
    }
    if j - i > 10 {
        proof {
            reveal_with_fuel(pow10, 12);
            assert(ds[0] != '0');
            assert(val(ds) >= pow10((ds.len() - 1) as nat));
            assert(pow10(10) == 10000000000);
            assert(pow10((ds.len() - 1) as nat) >= pow10(10)) by {
                lemma_pow10_mono(10, (ds.len() - 1) as nat);
            }
            assert(val(ds) > u32::MAX);
        }
        return None;
    }
    let mut acc: u64 = 0;
    let mut k: usize = i;
    while k < j
        invariant
            i <= k <= j <= s@.len(),
            j - i <= 10,
            ds == s@.subrange(i as int, j as int),
            forall|m: int| i <= m < j ==> is_digit(#[trigger] s@[m]),
            acc == val(s@.subrange(i as int, k as int)),
            acc < 0x8000000000000000u64,
        decreases j - k,
    {
        proof {
            let pre = s@.subrange(i as int, k as int);
            let pre2 = s@.subrange(i as int, k + 1);
            assert(pre2.take(pre2.len() - 1) =~= pre);
            assert(pre2[pre2.len() - 1] == s@[k as int]);
            assert(val(pre2) == val(pre) * 10 + dval(s@[k as int]));
            lemma_val_bounds(pre);
            lemma_pow10_mono(pre.len() as nat, 10);
            reveal_with_fuel(pow10, 12);
            assert(pow10(10) == 10000000000);
            assert(val(pre) < 10000000000);
        }
        acc = acc * 10 + ((s[k] as u32) - 48) as u64;
        k += 1;
    }
    proof {
        assert(s@.subrange(i as int, j as int) == ds);
    }
    if acc > 0xffffffffu64 {
        return None;
    }
    Some((acc as u32, j))
}

proof fn lemma_pow10_pos(a: nat)
    ensures
        pow10(a) >= 1,
    decreases a,
{
    if a > 0 {
        lemma_pow10_pos((a - 1) as nat);
    }
}

proof fn lemma_pow10_mono(a: nat, b: nat)
    requires
        a <= b,
    ensures
        1 <= pow10(a) <= pow10(b),
    decreases b,
{
    lemma_pow10_pos(a);
    if a < b {
        lemma_pow10_mono(a, (b - 1) as nat);
        lemma_pow10_pos((b - 1) as nat);
    }
}

/// Parse `true` or `false` at position `i`.
pub fn parse_bool(s: &Vec<char>, i: usize) -> (r: Option<(bool, usize)>)
    requires
        i <= s@.len(),
    ensures
        match r {
            Some(p) => p.1 <= s@.len() && p_bool(s@.skip(i as int)) == Some(
                (p.0, s@.skip(p.1 as int)),
            ),
            None => p_bool(s@.skip(i as int)) is None,
        },
{
    proof {
        reveal_strlit("true");
        reveal_strlit("false");
    }
    match expect_lit(s, i, "true") {
        Some(j) => Some((true, j)),
        None => match expect_lit(s, i, "false") {
            Some(j) => Some((false, j)),
            None => None,
        },
    }
}

} // verus!
