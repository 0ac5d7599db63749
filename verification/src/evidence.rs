//! Evidence blobs and their canonical encoding.
//!
//! Two blob shapes leave the signer. The proof payload
//! `{"network":...,"tx_hash":...,"tool":...}` is attached to the image in
//! its registry and points back to the ledger transaction. The signature
//! memo `{"version":...,"artifact":{"kind":...,"digest":...}}` is the
//! legacy alternate encoding, logged inside a ledger transaction itself.
//!
//! Both use one canonical JSON encoding: fixed field order, no spaces, no
//! escapes. Texts are carried verbatim, so the codec covers exactly the
//! texts that need no escaping — no quote, no backslash — and encoding
//! then decoding returns the original structure, proved below.

use vstd::prelude::*;
use vstd::string::*;

use crate::strutil::{
    find_char_from, lemma_find_char_at, matches_at, spec_find_char, str_matches_at,
};

verus! {

/// The proof payload attached to a signed image: which network holds the
/// attestation, the transaction that wrote it, and the tool that did.
pub struct SolanaProofPayload {
    pub network: String,
    pub tx_hash: String,
    pub tool: String,
}

/// Text the canonical encoding can carry verbatim: no quote, no backslash.
pub open spec fn plain_text(s: Seq<char>) -> bool {
    forall|i: int| 0 <= i < s.len() ==> s[i] != '"' && s[i] != '\\'
}

/// Whether a text can stand verbatim in a canonical blob.
pub fn is_plain_text(s: &str) -> (b: bool)
    ensures
        b == plain_text(s@),
{
    let n = s.unicode_len();
    let mut i: usize = 0;
    while i < n
        invariant
            0 <= i <= n,
            n == s@.len(),
            forall|j: int| 0 <= j < i ==> s@[j] != '"' && s@[j] != '\\',
        decreases n - i,
    {
        let c = s.get_char(i);
        if c == '"' || c == '\\' {
            return false;
        }
        i += 1;
    }
    true
}

/// The canonical encoding of a proof payload.
pub open spec fn spec_encode_payload(network: Seq<char>, tx_hash: Seq<char>, tool: Seq<char>) -> Seq<
    char,
> {
    "{\"network\":\""@ + network + "\",\"tx_hash\":\""@ + tx_hash + "\",\"tool\":\""@ + tool
        + "\"}"@
}

/// What decoding a blob as a proof payload yields: the three texts, when
/// the blob has exactly the canonical shape.
pub open spec fn spec_decode_payload(s: Seq<char>) -> Option<(Seq<char>, Seq<char>, Seq<char>)> {
    let p1 = "{\"network\":\""@;
    let p2 = "\",\"tx_hash\":\""@;
    let p3 = "\",\"tool\":\""@;
    let p4 = "\"}"@;
    if !matches_at(s, 0, p1) {
        None
    } else {
        match spec_find_char(s, p1.len() as int, '"') {
            None => None,
            Some(i1) => if !matches_at(s, i1, p2) {
                None
            } else {
                match spec_find_char(s, i1 + p2.len(), '"') {
                    None => None,
                    Some(i2) => if !matches_at(s, i2, p3) {
                        None
                    } else {
                        match spec_find_char(s, i2 + p3.len(), '"') {
                            None => None,
                            Some(i3) => if matches_at(s, i3, p4) && i3 + p4.len() == s.len() {
                                Some(
                                    (
                                        s.subrange(p1.len() as int, i1),
                                        s.subrange(i1 + p2.len(), i2),
                                        s.subrange(i2 + p3.len(), i3),
                                    ),
                                )
                            } else {
                                None
                            },
                        }
                    },
                }
            },
        }
    }
}

/// Encodes a proof payload as its canonical blob.
pub fn encode_proof_payload(payload: &SolanaProofPayload) -> (r: String)
    requires
        plain_text(payload.network@),
        plain_text(payload.tx_hash@),
        plain_text(payload.tool@),
    ensures
        r@ == spec_encode_payload(payload.network@, payload.tx_hash@, payload.tool@),
{
    let mut out = String::from_str("{\"network\":\"");
    out.append(payload.network.as_str());
    out.append("\",\"tx_hash\":\"");
    out.append(payload.tx_hash.as_str());
    out.append("\",\"tool\":\"");
    out.append(payload.tool.as_str());
    out.append("\"}");
    out
}

/// Decodes a canonical proof-payload blob; `None` exactly when the blob
/// does not have the canonical shape.
pub fn decode_proof_payload(blob: &str) -> (r: Option<SolanaProofPayload>)
    ensures
        r is Some <==> spec_decode_payload(blob@) is Some,
        r matches Some(p) ==> Some((p.network@, p.tx_hash@, p.tool@)) == spec_decode_payload(
            blob@,
        ),
{
    let n = blob.unicode_len();
    if !str_matches_at(blob, 0, "{\"network\":\"") {
        return None;
    }
    let p1_len = "{\"network\":\"".unicode_len();
    let i1 = match find_char_from(blob, p1_len, '"') {
        Some(i) => i,
        None => {
            return None;
        },
    };
    proof {
        crate::strutil::lemma_find_char_props(blob@, p1_len as int, '"');
    }
    if !str_matches_at(blob, i1, "\",\"tx_hash\":\"") {
        return None;
    }
    let p2_len = "\",\"tx_hash\":\"".unicode_len();
    assert(i1 + p2_len <= n);
    let i2 = match find_char_from(blob, i1 + p2_len, '"') {
        Some(i) => i,
        None => {
            return None;
        },
    };
    proof {
        crate::strutil::lemma_find_char_props(blob@, i1 + p2_len as int, '"');
    }
    if !str_matches_at(blob, i2, "\",\"tool\":\"") {
        return None;
    }
    let p3_len = "\",\"tool\":\"".unicode_len();
    assert(i2 + p3_len <= n);
    let i3 = match find_char_from(blob, i2 + p3_len, '"') {
        Some(i) => i,
        None => {
            return None;
        },
    };
    proof {
        crate::strutil::lemma_find_char_props(blob@, i2 + p3_len as int, '"');
    }
    let p4_len = "\"}".unicode_len();
    if !(str_matches_at(blob, i3, "\"}") && i3 + p4_len == n) {
        return None;
    }
    let network = blob.substring_char(p1_len, i1);
    let tx_hash = blob.substring_char(i1 + p2_len, i2);
    let tool = blob.substring_char(i2 + p3_len, i3);
    Some(
        SolanaProofPayload {
            network: String::from_str(network),
            tx_hash: String::from_str(tx_hash),
            tool: String::from_str(tool),
        },
    )
}

/// Law: decoding a canonically encoded proof payload returns the original
/// three texts, for every payload the encoding carries verbatim.
pub proof fn lemma_payload_round_trip(network: Seq<char>, tx_hash: Seq<char>, tool: Seq<char>)
    requires
        plain_text(network),
        plain_text(tx_hash),
        plain_text(tool),
    ensures
        spec_decode_payload(spec_encode_payload(network, tx_hash, tool)) == Some(
            (network, tx_hash, tool),
        ),
{
    let p1 = "{\"network\":\""@;
    let p2 = "\",\"tx_hash\":\""@;
    let p3 = "\",\"tool\":\""@;
    let p4 = "\"}"@;
    reveal_strlit("{\"network\":\"");
    reveal_strlit("\",\"tx_hash\":\"");
    reveal_strlit("\",\"tool\":\"");
    reveal_strlit("\"}");
    let s = spec_encode_payload(network, tx_hash, tool);
    let i1: int = p1.len() as int + network.len() as int;
    let i2: int = i1 + p2.len() as int + tx_hash.len() as int;
    let i3: int = i2 + p3.len() as int + tool.len() as int;
    assert(s.len() == i3 + p4.len());
    assert(matches_at(s, 0, p1)) by {
        assert(s.subrange(0, p1.len() as int) =~= p1);
    }
    assert(s[i1] == '"');
    assert forall|j: int| p1.len() <= j < i1 implies s[j] != '"' by {
        assert(s[j] == network[j - p1.len()]);
    }
    lemma_find_char_at(s, p1.len() as int, '"', i1);
    assert(matches_at(s, i1, p2)) by {
        assert(s.subrange(i1, i1 + p2.len() as int) =~= p2);
    }
    assert(s[i2] == '"');
    assert forall|j: int| i1 + p2.len() <= j < i2 implies s[j] != '"' by {
        assert(s[j] == tx_hash[j - i1 - p2.len()]);
    }
    lemma_find_char_at(s, i1 + p2.len() as int, '"', i2);
    assert(matches_at(s, i2, p3)) by {
        assert(s.subrange(i2, i2 + p3.len() as int) =~= p3);
    }
    assert(s[i3] == '"');
    assert forall|j: int| i2 + p3.len() <= j < i3 implies s[j] != '"' by {
        assert(s[j] == tool[j - i2 - p3.len()]);
    }
    lemma_find_char_at(s, i2 + p3.len() as int, '"', i3);
    assert(matches_at(s, i3, p4)) by {
        assert(s.subrange(i3, i3 + p4.len() as int) =~= p4);
    }
    assert(s.subrange(p1.len() as int, i1) =~= network);
    assert(s.subrange(i1 + p2.len() as int, i2) =~= tx_hash);
    assert(s.subrange(i2 + p3.len() as int, i3) =~= tool);
}

/// The artifact a signature memo attests: its kind and its digest.
pub struct MemoArtifact {
    pub kind: String,
    pub digest: String,
}

/// The legacy self-describing payload logged inside a ledger transaction:
/// a format version and the attested artifact.
pub struct SignatureMemo {
    pub version: u32,
    pub artifact: MemoArtifact,
}

/// The value of a decimal digit character; negative for any other
/// character.
pub open spec fn dec_value(c: char) -> int {
    if c == '0' {
        0
    } else if c == '1' {
        1
    } else if c == '2' {
        2
    } else if c == '3' {
        3
    } else if c == '4' {
        4
    } else if c == '5' {
        5
    } else if c == '6' {
        6
    } else if c == '7' {
        7
    } else if c == '8' {
        8
    } else if c == '9' {
        9
    } else {
        -1
    }
}

/// True for the ten decimal digit characters.
pub open spec fn is_dec_digit(c: char) -> bool {
    dec_value(c) >= 0
}

/// The digit character of a value below ten.
pub open spec fn dec_digit_char(d: int) -> char {
    if d == 0 {
        '0'
    } else if d == 1 {
        '1'
    } else if d == 2 {
        '2'
    } else if d == 3 {
        '3'
    } else if d == 4 {
        '4'
    } else if d == 5 {
        '5'
    } else if d == 6 {
        '6'
    } else if d == 7 {
        '7'
    } else if d == 8 {
        '8'
    } else {
        '9'
    }
}

/// The decimal writing of a natural number, most significant digit first.
pub open spec fn spec_dec_nat(n: nat) -> Seq<char>
    decreases n,
{
    if n < 10 {
        seq![dec_digit_char(n as int)]
    } else {
        spec_dec_nat(n / 10) + seq![dec_digit_char((n % 10) as int)]
    }
}

/// The value of an all-digit text, most significant digit first.
pub open spec fn spec_parse_dec(t: Seq<char>) -> int
    decreases t.len(),
{
    if t.len() == 0 {
        0
    } else {
        spec_parse_dec(t.drop_last()) * 10 + dec_value(t.last())
    }
}

/// Where the run of digits beginning at `from` ends.
pub open spec fn spec_digits_end(s: Seq<char>, from: int) -> int
    decreases s.len() - from when 0 <= from <= s.len()
{
    if from < s.len() && is_dec_digit(s[from]) {
        spec_digits_end(s, from + 1)
    } else {
        from
    }
}

/// A decimal writing consists of digits, at least one.
proof fn lemma_dec_nat_digits(n: nat)
    ensures
        spec_dec_nat(n).len() >= 1,
        forall|i: int| 0 <= i < spec_dec_nat(n).len() ==> is_dec_digit(#[trigger] spec_dec_nat(
            n,
        )[i]),
    decreases n,
{
    if n >= 10 {
        lemma_dec_nat_digits(n / 10);
    }
}

/// A digit character reads back as its value.
proof fn lemma_dec_digit_value(d: int)
    requires
        0 <= d < 10,
    ensures
        dec_value(dec_digit_char(d)) == d,
{
}

/// Parsing a decimal writing returns the number written.
proof fn lemma_dec_nat_round(n: nat)
    ensures
        spec_parse_dec(spec_dec_nat(n)) == n,
    decreases n,
{
    if n < 10 {
        lemma_dec_digit_value(n as int);
        let t = spec_dec_nat(n);
        assert(t.drop_last() =~= Seq::<char>::empty());
        assert(t.last() == dec_digit_char(n as int));
        assert(spec_parse_dec(t) == spec_parse_dec(t.drop_last()) * 10 + dec_value(t.last()));
    } else {
        lemma_dec_nat_round(n / 10);
        lemma_dec_digit_value((n % 10) as int);
        let t = spec_dec_nat(n);
        assert(t.drop_last() =~= spec_dec_nat(n / 10));
        assert(t.last() == dec_digit_char((n % 10) as int));
        assert(spec_parse_dec(t) == spec_parse_dec(t.drop_last()) * 10 + dec_value(t.last()));
    }
}

/// An all-digit text has a non-negative value.
proof fn lemma_parse_dec_nonneg(t: Seq<char>)
    requires
        forall|i: int| 0 <= i < t.len() ==> is_dec_digit(t[i]),
    ensures
        spec_parse_dec(t) >= 0,
    decreases t.len(),
{
    if t.len() > 0 {
        lemma_parse_dec_nonneg(t.drop_last());
    }
}

/// Dropping trailing digits never increases the value.
proof fn lemma_parse_dec_prefix(t: Seq<char>, k: int)
    requires
        0 <= k <= t.len(),
        forall|i: int| 0 <= i < t.len() ==> is_dec_digit(t[i]),
    ensures
        spec_parse_dec(t) >= spec_parse_dec(t.subrange(0, k)),
    decreases t.len() - k,
{
    if k == t.len() {
        assert(t.subrange(0, k) =~= t);
    } else {
        let shorter = t.drop_last();
        lemma_parse_dec_nonneg(shorter);
        lemma_parse_dec_nonneg(t);
        assert(shorter.subrange(0, k) =~= t.subrange(0, k));
        lemma_parse_dec_prefix(shorter, k);
    }
}

/// Where the digits are known to stop, `spec_digits_end` stops there.
proof fn lemma_digits_end_at(s: Seq<char>, from: int, k: int)
    requires
        0 <= from <= k <= s.len(),
        forall|j: int| from <= j < k ==> is_dec_digit(s[j]),
        k == s.len() || !is_dec_digit(s[k]),
    ensures
        spec_digits_end(s, from) == k,
    decreases k - from,
{
    if from < k {
        lemma_digits_end_at(s, from + 1, k);
    }
}

/// The digit run: its end lies in range, everything before it is a digit,
/// and it stops only at the text's end or a non-digit.
proof fn lemma_digits_end_props(s: Seq<char>, from: int)
    requires
        0 <= from <= s.len(),
    ensures
        from <= spec_digits_end(s, from) <= s.len(),
        forall|j: int| from <= j < spec_digits_end(s, from) ==> is_dec_digit(s[j]),
        spec_digits_end(s, from) < s.len() ==> !is_dec_digit(s[spec_digits_end(s, from)]),
    decreases s.len() - from,
{
    if from < s.len() && is_dec_digit(s[from]) {
        lemma_digits_end_props(s, from + 1);
    }
}

/// The digit of a character, when it is one.
fn dec_digit_of(c: char) -> (r: Option<u8>)
    ensures
        match r {
            Some(d) => dec_value(c) == d as int,
            None => !is_dec_digit(c),
        },
{
    if c == '0' {
        Some(0)
    } else if c == '1' {
        Some(1)
    } else if c == '2' {
        Some(2)
    } else if c == '3' {
        Some(3)
    } else if c == '4' {
        Some(4)
    } else if c == '5' {
        Some(5)
    } else if c == '6' {
        Some(6)
    } else if c == '7' {
        Some(7)
    } else if c == '8' {
        Some(8)
    } else if c == '9' {
        Some(9)
    } else {
        None
    }
}

/// The one-character text of a digit value.
fn digit_str(d: u32) -> (r: &'static str)
    requires
        d < 10,
    ensures
        r@ == seq![dec_digit_char(d as int)],
{
    proof {
        reveal_strlit("0");
        reveal_strlit("1");
        reveal_strlit("2");
        reveal_strlit("3");
        reveal_strlit("4");
        reveal_strlit("5");
        reveal_strlit("6");
        reveal_strlit("7");
        reveal_strlit("8");
        reveal_strlit("9");
    }
    let r = if d == 0 {
        "0"
    } else if d == 1 {
        "1"
    } else if d == 2 {
        "2"
    } else if d == 3 {
        "3"
    } else if d == 4 {
        "4"
    } else if d == 5 {
        "5"
    } else if d == 6 {
        "6"
    } else if d == 7 {
        "7"
    } else {
        "8"
    };
    if d == 9 {
        proof {
            assert("9"@ =~= seq![dec_digit_char(9)]);
        }
        return "9";
    }
    proof {
        assert(r@ =~= seq![dec_digit_char(d as int)]);
    }
    r
}

/// Appends the decimal writing of `n`.
fn push_decimal(out: &mut String, n: u32)
    ensures
        final(out)@ == old(out)@ + spec_dec_nat(n as nat),
    decreases n,
{
    if n < 10 {
        out.append(digit_str(n));
    } else {
        push_decimal(out, n / 10);
        out.append(digit_str(n % 10));
        proof {
            assert(old(out)@ + spec_dec_nat((n / 10) as nat) + seq![dec_digit_char(
                (n % 10) as int,
            )] =~= old(out)@ + spec_dec_nat(n as nat));
        }
    }
}

/// The canonical encoding of a signature memo.
pub open spec fn spec_encode_memo(version: u32, kind: Seq<char>, digest: Seq<char>) -> Seq<char> {
    "{\"version\":"@ + spec_dec_nat(version as nat) + ",\"artifact\":{\"kind\":\""@ + kind
        + "\",\"digest\":\""@ + digest + "\"}}"@
}

/// What decoding a blob as a signature memo yields: the version and the
/// artifact's two texts, when the blob has exactly the canonical shape and
/// the version fits the format's width.
pub open spec fn spec_decode_memo(s: Seq<char>) -> Option<(u32, Seq<char>, Seq<char>)> {
    let p1 = "{\"version\":"@;
    let p2 = ",\"artifact\":{\"kind\":\""@;
    let p3 = "\",\"digest\":\""@;
    let p4 = "\"}}"@;
    if !matches_at(s, 0, p1) {
        None
    } else {
        let e = spec_digits_end(s, p1.len() as int);
        let v = spec_parse_dec(s.subrange(p1.len() as int, e));
        if e == p1.len() || v > u32::MAX {
            None
        } else if !matches_at(s, e, p2) {
            None
        } else {
            match spec_find_char(s, e + p2.len(), '"') {
                None => None,
                Some(i2) => if !matches_at(s, i2, p3) {
                    None
                } else {
                    match spec_find_char(s, i2 + p3.len(), '"') {
                        None => None,
                        Some(i3) => if matches_at(s, i3, p4) && i3 + p4.len() == s.len() {
                            Some(
                                (
                                    v as u32,
                                    s.subrange(e + p2.len(), i2),
                                    s.subrange(i2 + p3.len(), i3),
                                ),
                            )
                        } else {
                            None
                        },
                    }
                },
            }
        }
    }
}

/// Encodes a signature memo as its canonical blob.
pub fn encode_signature_memo(memo: &SignatureMemo) -> (r: String)
    requires
        plain_text(memo.artifact.kind@),
        plain_text(memo.artifact.digest@),
    ensures
        r@ == spec_encode_memo(memo.version, memo.artifact.kind@, memo.artifact.digest@),
{
    let mut out = String::from_str("{\"version\":");
    push_decimal(&mut out, memo.version);
    out.append(",\"artifact\":{\"kind\":\"");
    out.append(memo.artifact.kind.as_str());
    out.append("\",\"digest\":\"");
    out.append(memo.artifact.digest.as_str());
    out.append("\"}}");
    out
}

/// Decodes a canonical signature-memo blob; `None` exactly when the blob
/// does not have the canonical shape or the version overflows the
/// format's width.
pub fn decode_signature_memo(blob: &str) -> (r: Option<SignatureMemo>)
    ensures
        r is Some <==> spec_decode_memo(blob@) is Some,
        r matches Some(m) ==> Some((m.version, m.artifact.kind@, m.artifact.digest@))
            == spec_decode_memo(blob@),
{
    let n = blob.unicode_len();
    if !str_matches_at(blob, 0, "{\"version\":") {
        return None;
    }
    let p1_len = "{\"version\":".unicode_len();
    proof {
        lemma_digits_end_props(blob@, p1_len as int);
    }
    let mut i = p1_len;
    let mut value: u64 = 0;
    let mut stop = false;
    while !stop && i < n
        invariant
            p1_len <= i <= n,
            n == blob@.len(),
            p1_len == "{\"version\":"@.len(),
            value <= u32::MAX as u64,
            value as int == spec_parse_dec(blob@.subrange(p1_len as int, i as int)),
            forall|j: int| p1_len <= j < i ==> is_dec_digit(blob@[j]),
            stop ==> i == n || !is_dec_digit(blob@[i as int]),
            matches_at(blob@, 0, "{\"version\":"@),
        decreases 2 * (n - i) + (if stop { 0int } else { 1 }),
    {
        let c = blob.get_char(i);
        match dec_digit_of(c) {
            Some(d) => {
                let next = value * 10 + (d as u64);
                proof {
                    let partial = blob@.subrange(p1_len as int, i as int);
                    let extended = blob@.subrange(p1_len as int, i as int + 1);
                    assert(extended.drop_last() =~= partial);
                    assert(extended.last() == blob@[i as int]);
                }
                if next > u32::MAX as u64 {
                    proof {
                        assert(is_dec_digit(blob@[i as int]));
                        lemma_digits_end_props(blob@, p1_len as int);
                        lemma_digits_end_at_least(blob@, p1_len as int, i as int + 1);
                        let e = spec_digits_end(blob@, p1_len as int);
                        let t = blob@.subrange(p1_len as int, e);
                        assert(forall|j: int| 0 <= j < t.len() ==> is_dec_digit(#[trigger] t[j]));
                        assert(blob@.subrange(p1_len as int, i as int + 1) =~= t.subrange(
                            0,
                            i as int + 1 - p1_len,
                        ));
                        lemma_parse_dec_prefix(t, i as int + 1 - p1_len);
                    }
                    return None;
                }
                value = next;
                i += 1;
            },
            None => {
                stop = true;
            },
        }
    }
    proof {
        lemma_digits_end_at(blob@, p1_len as int, i as int);
    }
    if i == p1_len {
        return None;
    }
    let version = value as u32;
    if !str_matches_at(blob, i, ",\"artifact\":{\"kind\":\"") {
        return None;
    }
    let p2_len = ",\"artifact\":{\"kind\":\"".unicode_len();
    assert(i + p2_len <= n);
    let i2 = match find_char_from(blob, i + p2_len, '"') {
        Some(x) => x,
        None => {
            return None;
        },
    };
    proof {
        crate::strutil::lemma_find_char_props(blob@, i + p2_len as int, '"');
    }
    if !str_matches_at(blob, i2, "\",\"digest\":\"") {
        return None;
    }
    let p3_len = "\",\"digest\":\"".unicode_len();
    assert(i2 + p3_len <= n);
    let i3 = match find_char_from(blob, i2 + p3_len, '"') {
        Some(x) => x,
        None => {
            return None;
        },
    };
    proof {
        crate::strutil::lemma_find_char_props(blob@, i2 + p3_len as int, '"');
    }
    let p4_len = "\"}}".unicode_len();
    if !(str_matches_at(blob, i3, "\"}}") && i3 + p4_len == n) {
        return None;
    }
    let kind = blob.substring_char(i + p2_len, i2);
    let digest = blob.substring_char(i2 + p3_len, i3);
    Some(
        SignatureMemo {
            version,
            artifact: MemoArtifact {
                kind: String::from_str(kind),
                digest: String::from_str(digest),
            },
        },
    )
}

/// A run of digits reaches at least as far as any known digit stretch.
proof fn lemma_digits_end_at_least(s: Seq<char>, from: int, k: int)
    requires
        0 <= from <= k <= s.len(),
        forall|j: int| from <= j < k ==> is_dec_digit(s[j]),
    ensures
        spec_digits_end(s, from) >= k,
    decreases k - from,
{
    if from < k {
        assert(is_dec_digit(s[from]));
        lemma_digits_end_at_least(s, from + 1, k);
        assert(spec_digits_end(s, from) == spec_digits_end(s, from + 1));
    } else {
        lemma_digits_end_props(s, from);
    }
}

/// Law: decoding a canonically encoded signature memo returns the original
/// version and artifact, for every memo whose texts the encoding carries
/// verbatim.
pub proof fn lemma_memo_round_trip(version: u32, kind: Seq<char>, digest: Seq<char>)
    requires
        plain_text(kind),
        plain_text(digest),
    ensures
        spec_decode_memo(spec_encode_memo(version, kind, digest)) == Some(
            (version, kind, digest),
        ),
{
    let p1 = "{\"version\":"@;
    let p2 = ",\"artifact\":{\"kind\":\""@;
    let p3 = "\",\"digest\":\""@;
    let p4 = "\"}}"@;
    reveal_strlit("{\"version\":");
    reveal_strlit(",\"artifact\":{\"kind\":\"");
    reveal_strlit("\",\"digest\":\"");
    reveal_strlit("\"}}");
    let digits = spec_dec_nat(version as nat);
    lemma_dec_nat_digits(version as nat);
    lemma_dec_nat_round(version as nat);
    let s = spec_encode_memo(version, kind, digest);
    let e: int = p1.len() as int + digits.len() as int;
    let i2: int = e + p2.len() as int + kind.len() as int;
    let i3: int = i2 + p3.len() as int + digest.len() as int;
    assert(s.len() == i3 + p4.len());
    assert(matches_at(s, 0, p1)) by {
        assert(s.subrange(0, p1.len() as int) =~= p1);
    }
    assert forall|j: int| p1.len() <= j < e implies is_dec_digit(s[j]) by {
        assert(s[j] == digits[j - p1.len()]);
    }
    assert(s[e] == ',');
    assert(!is_dec_digit(','));
    lemma_digits_end_at(s, p1.len() as int, e);
    assert(s.subrange(p1.len() as int, e) =~= digits);
    assert(spec_parse_dec(s.subrange(p1.len() as int, e)) == version);
    assert(matches_at(s, e, p2)) by {
        assert(s.subrange(e, e + p2.len() as int) =~= p2);
    }
    assert(s[i2] == '"');
    assert forall|j: int| e + p2.len() <= j < i2 implies s[j] != '"' by {
        assert(s[j] == kind[j - e - p2.len()]);
    }
    lemma_find_char_at(s, e + p2.len() as int, '"', i2);
    assert(matches_at(s, i2, p3)) by {
        assert(s.subrange(i2, i2 + p3.len() as int) =~= p3);
    }
    assert(s[i3] == '"');
    assert forall|j: int| i2 + p3.len() <= j < i3 implies s[j] != '"' by {
        assert(s[j] == digest[j - i2 - p3.len()]);
    }
    lemma_find_char_at(s, i2 + p3.len() as int, '"', i3);
    assert(matches_at(s, i3, p4)) by {
        assert(s.subrange(i3, i3 + p4.len() as int) =~= p4);
    }
    assert(s.subrange(e + p2.len() as int, i2) =~= kind);
    assert(s.subrange(i2 + p3.len() as int, i3) =~= digest);
}

} // verus!
