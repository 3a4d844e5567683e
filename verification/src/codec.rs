use vstd::prelude::*;

use crate::hex::{
    bytes_eq, hex_byte, hex_digit, hex_of, hex_val, lemma_hex_digit_val,
    lemma_hex_digits_of_byte, lemma_hex_of_index, lemma_hex_of_len, push_hex,
};

verus! {

/// A verification key produced by the basic-circuits round.  `circuit_type`
/// is the numeric circuit type the key declares itself for; `key` is the
/// serialized cryptographic payload, which the store never interprets.
#[derive(Debug, Clone, PartialEq, Eq)]
pub struct BaseLayerVerificationKey {
    pub circuit_type: u8,
    pub key: Vec<u8>,
}

impl BaseLayerVerificationKey {
    /// The numeric circuit type that the key declares itself for.
    pub fn numeric_circuit_type(&self) -> (t: u8)
        ensures
            t == self.circuit_type,
    {
        self.circuit_type
    }
}

/// A verification key produced by one of the recursive rounds (leaf or node
/// aggregation, or the scheduler).  The round it belongs to is encoded in
/// `circuit_type` through the sentinel classification.
#[derive(Debug, Clone, PartialEq, Eq)]
pub struct RecursiveLayerVerificationKey {
    pub circuit_type: u8,
    pub key: Vec<u8>,
}

impl RecursiveLayerVerificationKey {
    /// The numeric circuit type that the key declares itself for.
    pub fn numeric_circuit_type(&self) -> (t: u8)
        ensures
            t == self.circuit_type,
    {
        self.circuit_type
    }
}

// Verification keys are stored as pretty-printed structured text:
//
//     {
//       "layer": "<tag>",
//       "circuit_type": "<two hex digits>",
//       "key": "<hex digits>"
//     }
//
// written without the indentation of this comment, with a two-space indent
// and no trailing newline.  The fixed pieces of that text follow, as byte
// sequences.
/// The bytes before the layer tag: `{`, newline, indent, `"layer": "`.
pub open spec fn layer_prefix() -> Seq<u8> {
    seq![123u8, 10, 32, 32, 34, 108, 97, 121, 101, 114, 34, 58, 32, 34]
}

/// The layer tag of base-layer keys: `base`.
pub open spec fn base_layer_tag() -> Seq<u8> {
    seq![98u8, 97, 115, 101]
}

/// The layer tag of recursive-layer keys: `recursive`.
pub open spec fn recursive_layer_tag() -> Seq<u8> {
    seq![114u8, 101, 99, 117, 114, 115, 105, 118, 101]
}

/// The bytes between the layer tag and the circuit type:
/// `",` newline, indent, `"circuit_type": "`.
pub open spec fn circuit_type_label() -> Seq<u8> {
    seq![34u8, 44, 10, 32, 32, 34, 99, 105, 114, 99, 117, 105, 116, 95, 116, 121, 112, 101, 34,
        58, 32, 34]
}

/// The bytes between the circuit type and the key payload:
/// `",` newline, indent, `"key": "`.
pub open spec fn key_label() -> Seq<u8> {
    seq![34u8, 44, 10, 32, 32, 34, 107, 101, 121, 34, 58, 32, 34]
}

/// The closing bytes: `"`, newline, `}`.
pub open spec fn vk_suffix() -> Seq<u8> {
    seq![34u8, 10, 125]
}

/// The layer tag used for a decoder run: the recursive tag when `recursive`
/// holds, the base tag otherwise.
pub open spec fn tag_of(recursive: bool) -> Seq<u8> {
    if recursive {
        recursive_layer_tag()
    } else {
        base_layer_tag()
    }
}

/// The complete text of a verification-key artifact with the given layer
/// tag, circuit type and payload.
pub open spec fn vk_text(tag: Seq<u8>, circuit_type: u8, key: Seq<u8>) -> Seq<u8> {
    layer_prefix() + tag + circuit_type_label() + hex_of(seq![circuit_type]) + key_label()
        + hex_of(key) + vk_suffix()
}

/// The text of a base-layer verification key.
pub open spec fn base_vk_text(v: BaseLayerVerificationKey) -> Seq<u8> {
    vk_text(base_layer_tag(), v.circuit_type, v.key@)
}

/// The text of a recursive-layer verification key.
pub open spec fn recursive_vk_text(v: RecursiveLayerVerificationKey) -> Seq<u8> {
    vk_text(recursive_layer_tag(), v.circuit_type, v.key@)
}

/// Shape of the text of an artifact: its length, and the hex digits that
/// stand at the circuit-type and payload positions.
pub proof fn lemma_vk_text_parts(tag: Seq<u8>, ct: u8, k: Seq<u8>)
    ensures
        ({
            let s = vk_text(tag, ct, k);
            let pl = 36 + tag.len() as int;
            s.len() == pl + 18 + 2 * k.len() && s[pl] == hex_digit((ct / 16) as nat)
                && s[pl + 1] == hex_digit((ct % 16) as nat) && (forall|j: int|
                0 <= j < k.len() ==> s[pl + 15 + 2 * j] == hex_digit((k[j] / 16) as nat)
                    && s[pl + 15 + 2 * j + 1] == hex_digit((k[j] % 16) as nat))
        }),
{
    let s = vk_text(tag, ct, k);
    let pl = 36 + tag.len() as int;
    lemma_hex_of_len(seq![ct]);
    lemma_hex_of_len(k);
    let w = layer_prefix() + tag + circuit_type_label();
    let z = w + hex_of(seq![ct]);
    let y = z + key_label();
    let x = y + hex_of(k);
    assert(s == x + vk_suffix());
    assert(w.len() == pl);
    assert(s.len() == pl + 18 + 2 * k.len());
    lemma_hex_of_index(seq![ct], 0);
    assert(s[pl] == x[pl]);
    assert(x[pl] == y[pl]);
    assert(y[pl] == z[pl]);
    assert(z[pl] == hex_of(seq![ct])[0]);
    assert(s[pl + 1] == x[pl + 1]);
    assert(x[pl + 1] == y[pl + 1]);
    assert(y[pl + 1] == z[pl + 1]);
    assert(z[pl + 1] == hex_of(seq![ct])[1]);
    assert(seq![ct][0] == ct);
    assert forall|j: int| 0 <= j < k.len() implies s[pl + 15 + 2 * j] == hex_digit(
        (k[j] / 16) as nat,
    ) && s[pl + 15 + 2 * j + 1] == hex_digit((k[j] % 16) as nat) by {
        lemma_hex_of_index(k, j);
        assert(s[pl + 15 + 2 * j] == x[pl + 15 + 2 * j]);
        assert(x[pl + 15 + 2 * j] == hex_of(k)[2 * j]);
        assert(s[pl + 15 + 2 * j + 1] == x[pl + 15 + 2 * j + 1]);
        assert(x[pl + 15 + 2 * j + 1] == hex_of(k)[2 * j + 1]);
    }
}

/// The text determines the artifact: equal texts under one layer tag come
/// from equal circuit types and equal payloads.
pub proof fn lemma_vk_text_injective(tag: Seq<u8>, ct1: u8, k1: Seq<u8>, ct2: u8, k2: Seq<u8>)
    requires
        vk_text(tag, ct1, k1) == vk_text(tag, ct2, k2),
    ensures
        ct1 == ct2,
        k1 == k2,
{
    lemma_vk_text_parts(tag, ct1, k1);
    lemma_vk_text_parts(tag, ct2, k2);
    lemma_hex_digits_of_byte(ct1);
    lemma_hex_digits_of_byte(ct2);
    let s = vk_text(tag, ct1, k1);
    let pl = 36 + tag.len() as int;
    assert(k1.len() == k2.len());
    assert(hex_val(s[pl]) == ct1 / 16 && hex_val(s[pl]) == ct2 / 16) by {
        lemma_hex_digit_val((ct1 / 16) as nat);
        lemma_hex_digit_val((ct2 / 16) as nat);
    }
    assert(hex_val(s[pl + 1]) == ct1 % 16 && hex_val(s[pl + 1]) == ct2 % 16) by {
        lemma_hex_digit_val((ct1 % 16) as nat);
        lemma_hex_digit_val((ct2 % 16) as nat);
    }
    assert(ct1 == ct2);
    assert forall|j: int| 0 <= j < k1.len() implies k1[j] == k2[j] by {
        lemma_hex_digits_of_byte(k1[j]);
        lemma_hex_digits_of_byte(k2[j]);
        lemma_hex_digit_val((k1[j] / 16) as nat);
        lemma_hex_digit_val((k2[j] / 16) as nat);
        lemma_hex_digit_val((k1[j] % 16) as nat);
        lemma_hex_digit_val((k2[j] % 16) as nat);
        assert(hex_val(s[pl + 15 + 2 * j]) == k1[j] / 16);
        assert(hex_val(s[pl + 15 + 2 * j]) == k2[j] / 16);
        assert(hex_val(s[pl + 15 + 2 * j + 1]) == k1[j] % 16);
        assert(hex_val(s[pl + 15 + 2 * j + 1]) == k2[j] % 16);
    }
    assert(k1 =~= k2);
}

/// What a text decodes to: the unique artifact whose text it is, if any.
pub open spec fn vk_text_parse(tag: Seq<u8>, s: Seq<u8>) -> Option<(u8, Seq<u8>)> {
    if exists|p: (u8, Seq<u8>)| s == vk_text(tag, p.0, p.1) {
        Some(choose|p: (u8, Seq<u8>)| s == vk_text(tag, p.0, p.1))
    } else {
        None
    }
}

/// Round-trip: the text of an artifact parses back to that artifact and to
/// nothing else.
pub proof fn lemma_vk_round_trip(tag: Seq<u8>, ct: u8, k: Seq<u8>)
    ensures
        vk_text_parse(tag, vk_text(tag, ct, k)) == Some((ct, k)),
{
    let s = vk_text(tag, ct, k);
    let q = (ct, k);
    assert(s == vk_text(tag, q.0, q.1));
    let p = choose|p: (u8, Seq<u8>)| s == vk_text(tag, p.0, p.1);
    lemma_vk_text_injective(tag, p.0, p.1, ct, k);
}

/// A byte of printable text: a newline or a printable ASCII character.
pub open spec fn is_text_byte(b: u8) -> bool {
    b == 10 || (32 <= b && b <= 126)
}

/// The stored form of a verification key really is text: every byte of it
/// is a newline or a printable ASCII character, never raw binary.
#[verifier::rlimit(50)]
pub proof fn lemma_vk_text_is_text(recursive: bool, ct: u8, k: Seq<u8>)
    ensures
        forall|i: int|
            0 <= i < vk_text(tag_of(recursive), ct, k).len() ==> is_text_byte(
                vk_text(tag_of(recursive), ct, k)[i],
            ),
{
    let tag = tag_of(recursive);
    let s = vk_text(tag, ct, k);
    let pl = 36 + tag.len() as int;
    lemma_hex_of_len(seq![ct]);
    lemma_hex_of_len(k);
    let pt = layer_prefix() + tag;
    let w = pt + circuit_type_label();
    let z = w + hex_of(seq![ct]);
    let y = z + key_label();
    let x = y + hex_of(k);
    assert(s == x + vk_suffix());
    lemma_vk_text_parts(tag, ct, k);
    assert forall|i: int| 0 <= i < s.len() implies is_text_byte(s[i]) by {
        if i < pl + 2 || pl + 15 <= i < pl + 15 + 2 * k.len() {
            // Up to the end of the circuit-type digits, and inside the key
            // digits: literal pieces, the tag, and hex digits.
            if i < 14 {
                assert(s[i] == x[i] && x[i] == y[i] && y[i] == z[i] && z[i] == w[i] && w[i]
                    == pt[i] && pt[i] == layer_prefix()[i]);
                assert(is_text_byte(layer_prefix()[i]));
            } else if i < 14 + tag.len() {
                assert(s[i] == x[i] && x[i] == y[i] && y[i] == z[i] && z[i] == w[i] && w[i]
                    == pt[i] && pt[i] == tag[i - 14]);
                assert(is_text_byte(base_layer_tag()[i - 14]) || !(i - 14
                    < base_layer_tag().len()));
                assert(is_text_byte(recursive_layer_tag()[i - 14]) || !(i - 14
                    < recursive_layer_tag().len()));
            } else if i < pl {
                assert(s[i] == x[i] && x[i] == y[i] && y[i] == z[i] && z[i] == w[i] && w[i]
                    == circuit_type_label()[i - 14 - tag.len()]);
                assert(is_text_byte(circuit_type_label()[i - 14 - tag.len()]));
            } else if i < pl + 2 {
                lemma_hex_digit_val((ct / 16) as nat);
                lemma_hex_digit_val((ct % 16) as nat);
            } else {
                let o = i - pl - 15;
                let j = o / 2;
                assert(o == 2 * j + o % 2);
                lemma_hex_digit_val((k[j] / 16) as nat);
                lemma_hex_digit_val((k[j] % 16) as nat);
                if o % 2 == 0 {
                    assert(s[pl + 15 + 2 * j] == hex_digit((k[j] / 16) as nat));
                } else {
                    assert(s[pl + 15 + 2 * j + 1] == hex_digit((k[j] % 16) as nat));
                }
            }
        } else if i < pl + 15 {
            assert(s[i] == x[i] && x[i] == y[i] && y[i] == key_label()[i - pl - 2]);
            assert(is_text_byte(key_label()[i - pl - 2]));
        } else {
            assert(s[i] == vk_suffix()[i - (pl + 15 + 2 * k.len())]);
            assert(is_text_byte(vk_suffix()[i - (pl + 15 + 2 * k.len())]));
        }
    }
}

/// The two layers' texts never coincide: a base-layer file can never decode
/// as a recursive-layer key, nor the reverse.
pub proof fn lemma_vk_layers_distinct(ct1: u8, k1: Seq<u8>, ct2: u8, k2: Seq<u8>)
    ensures
        vk_text(base_layer_tag(), ct1, k1) != vk_text(recursive_layer_tag(), ct2, k2),
{
    let s1 = vk_text(base_layer_tag(), ct1, k1);
    let s2 = vk_text(recursive_layer_tag(), ct2, k2);
    if s1 == s2 {
        let pref1 = layer_prefix() + base_layer_tag();
        let w1 = pref1 + circuit_type_label();
        let z1 = w1 + hex_of(seq![ct1]);
        let y1 = z1 + key_label();
        let x1 = y1 + hex_of(k1);
        assert(s1 == x1 + vk_suffix());
        assert(s1[14] == x1[14]);
        assert(x1[14] == y1[14]);
        assert(y1[14] == z1[14]);
        assert(z1[14] == w1[14]);
        assert(w1[14] == pref1[14]);
        assert(pref1[14] == base_layer_tag()[0]);
        let pref2 = layer_prefix() + recursive_layer_tag();
        let w2 = pref2 + circuit_type_label();
        let z2 = w2 + hex_of(seq![ct2]);
        let y2 = z2 + key_label();
        let x2 = y2 + hex_of(k2);
        assert(s2 == x2 + vk_suffix());
        assert(s2[14] == x2[14]);
        assert(x2[14] == y2[14]);
        assert(y2[14] == z2[14]);
        assert(z2[14] == w2[14]);
        assert(w2[14] == pref2[14]);
        assert(pref2[14] == recursive_layer_tag()[0]);
    }
}

/// Appends the fixed opening bytes.
fn push_layer_prefix(out: &mut Vec<u8>)
    ensures
        final(out)@ == old(out)@ + layer_prefix(),
{
    out.push(123);
    out.push(10);
    out.push(32);
    out.push(32);
    out.push(34);
    out.push(108);
    out.push(97);
    out.push(121);
    out.push(101);
    out.push(114);
    out.push(34);
    out.push(58);
    out.push(32);
    out.push(34);
    assert(final(out)@ =~= old(out)@ + layer_prefix());
}

/// Appends the base-layer tag.
fn push_base_layer_tag(out: &mut Vec<u8>)
    ensures
        final(out)@ == old(out)@ + base_layer_tag(),
{
    out.push(98);
    out.push(97);
    out.push(115);
    out.push(101);
    assert(final(out)@ =~= old(out)@ + base_layer_tag());
}

/// Appends the recursive-layer tag.
fn push_recursive_layer_tag(out: &mut Vec<u8>)
    ensures
        final(out)@ == old(out)@ + recursive_layer_tag(),
{
    out.push(114);
    out.push(101);
    out.push(99);
    out.push(117);
    out.push(114);
    out.push(115);
    out.push(105);
    out.push(118);
    out.push(101);
    assert(final(out)@ =~= old(out)@ + recursive_layer_tag());
}

/// Appends the fixed bytes before the circuit type.
fn push_circuit_type_label(out: &mut Vec<u8>)
    ensures
        final(out)@ == old(out)@ + circuit_type_label(),
{
    out.push(34);
    out.push(44);
    out.push(10);
    out.push(32);
    out.push(32);
    out.push(34);
    out.push(99);
    out.push(105);
    out.push(114);
    out.push(99);
    out.push(117);
    out.push(105);
    out.push(116);
    out.push(95);
    out.push(116);
    out.push(121);
    out.push(112);
    out.push(101);
    out.push(34);
    out.push(58);
    out.push(32);
    out.push(34);
    assert(final(out)@ =~= old(out)@ + circuit_type_label());
}

/// Appends the fixed bytes before the key payload.
fn push_key_label(out: &mut Vec<u8>)
    ensures
        final(out)@ == old(out)@ + key_label(),
{
    out.push(34);
    out.push(44);
    out.push(10);
    out.push(32);
    out.push(32);
    out.push(34);
    out.push(107);
    out.push(101);
    out.push(121);
    out.push(34);
    out.push(58);
    out.push(32);
    out.push(34);
    assert(final(out)@ =~= old(out)@ + key_label());
}

/// Appends the fixed closing bytes.
fn push_vk_suffix(out: &mut Vec<u8>)
    ensures
        final(out)@ == old(out)@ + vk_suffix(),
{
    out.push(34);
    out.push(10);
    out.push(125);
    assert(final(out)@ =~= old(out)@ + vk_suffix());
}

/// Appends the text of a key with the given tag already chosen.
fn push_vk_text(out: &mut Vec<u8>, recursive: bool, circuit_type: u8, key: &Vec<u8>)
    ensures
        final(out)@ == old(out)@ + vk_text(tag_of(recursive), circuit_type, key@),
{
    push_layer_prefix(out);
    if recursive {
        push_recursive_layer_tag(out);
    } else {
        push_base_layer_tag(out);
    }
    push_circuit_type_label(out);
    let mut ct: Vec<u8> = Vec::new();
    ct.push(circuit_type);
    assert(ct@ =~= seq![circuit_type]);
    push_hex(out, &ct);
    push_key_label(out);
    push_hex(out, key);
    push_vk_suffix(out);
    assert(final(out)@ =~= old(out)@ + vk_text(tag_of(recursive), circuit_type, key@));
}

/// Encodes a base-layer verification key as structured text.
pub fn encode_base_layer_vk(vk: &BaseLayerVerificationKey) -> (text: Vec<u8>)
    ensures
        text@ == base_vk_text(*vk),
{
    let mut out: Vec<u8> = Vec::new();
    push_vk_text(&mut out, false, vk.circuit_type, &vk.key);
    assert(out@ =~= base_vk_text(*vk));
    out
}

/// Encodes a recursive-layer verification key as structured text.
pub fn encode_recursive_layer_vk(vk: &RecursiveLayerVerificationKey) -> (text: Vec<u8>)
    ensures
        text@ == recursive_vk_text(*vk),
{
    let mut out: Vec<u8> = Vec::new();
    push_vk_text(&mut out, true, vk.circuit_type, &vk.key);
    assert(out@ =~= recursive_vk_text(*vk));
    out
}

/// Reads the circuit type and key payload out of a candidate text.  Where
/// the text is the encoding of some artifact under the chosen tag, the
/// result is exactly that artifact's fields; on other inputs the result
/// carries no promise beyond what the match below states.
fn extract_vk_fields(s: &Vec<u8>, recursive: bool) -> (r: Option<(u8, Vec<u8>)>)
    ensures
        match r {
            Some(pair) => forall|ct: u8, k: Seq<u8>|
                s@ == vk_text(tag_of(recursive), ct, k) ==> pair.0 == ct && pair.1@ == k,
            None => forall|ct: u8, k: Seq<u8>| s@ != vk_text(tag_of(recursive), ct, k),
        },
{
    let tag_len: usize = if recursive {
        9
    } else {
        4
    };
    assert(tag_len == tag_of(recursive).len());
    let pl: usize = 36 + tag_len;
    let slen: usize = s.len();
    if slen < pl + 18 {
        proof {
            assert forall|ct: u8, k: Seq<u8>| s@ != vk_text(tag_of(recursive), ct, k) by {
                if s@ == vk_text(tag_of(recursive), ct, k) {
                    lemma_vk_text_parts(tag_of(recursive), ct, k);
                }
            }
        }
        return None;
    }
    if (slen - pl - 18) % 2 != 0 {
        proof {
            assert forall|ct: u8, k: Seq<u8>| s@ != vk_text(tag_of(recursive), ct, k) by {
                if s@ == vk_text(tag_of(recursive), ct, k) {
                    lemma_vk_text_parts(tag_of(recursive), ct, k);
                }
            }
        }
        return None;
    }
    let ctv: u8 = match hex_byte(s[pl], s[pl + 1]) {
        Some(v) => v,
        None => {
            proof {
                assert forall|ct: u8, k: Seq<u8>| s@ != vk_text(tag_of(recursive), ct, k) by {
                    if s@ == vk_text(tag_of(recursive), ct, k) {
                        lemma_vk_text_parts(tag_of(recursive), ct, k);
                        lemma_hex_digits_of_byte(ct);
                    }
                }
            }
            return None;
        },
    };
    proof {
        assert forall|ct: u8, k: Seq<u8>| s@ == vk_text(tag_of(recursive), ct, k) implies ctv
            == ct by {
            lemma_vk_text_parts(tag_of(recursive), ct, k);
            lemma_hex_digits_of_byte(ct);
            lemma_hex_digit_val((ct / 16) as nat);
            lemma_hex_digit_val((ct % 16) as nat);
        }
    }
    let nk: usize = (slen - pl - 18) / 2;
    let key_start: usize = pl + 15;
    let mut key: Vec<u8> = Vec::new();
    let mut j: usize = 0;
    while j < nk
        invariant
            j <= nk,
            slen == s@.len(),
            s@.len() <= usize::MAX,
            pl == 36 + tag_of(recursive).len(),
            key_start == pl + 15,
            slen >= pl + 18,
            (slen - pl - 18) % 2 == 0,
            nk == (slen - pl - 18) / 2,
            key@.len() == j,
            forall|ct: u8, k: Seq<u8>|
                s@ == vk_text(tag_of(recursive), ct, k) ==> ctv == ct,
            forall|ct: u8, k: Seq<u8>|
                s@ == vk_text(tag_of(recursive), ct, k) ==> key@ == k.take(j as int),
        decreases nk - j,
    {
        let hi = s[key_start + 2 * j];
        let lo = s[key_start + 2 * j + 1];
        match hex_byte(hi, lo) {
            Some(b) => {
                proof {
                    assert forall|ct: u8, k: Seq<u8>|
                        s@ == vk_text(tag_of(recursive), ct, k) implies key@.push(b) == k.take(
                        j + 1,
                    ) by {
                        lemma_vk_text_parts(tag_of(recursive), ct, k);
                        assert(k.len() == nk);
                        lemma_hex_digits_of_byte(k[j as int]);
                        lemma_hex_digit_val((k[j as int] / 16) as nat);
                        lemma_hex_digit_val((k[j as int] % 16) as nat);
                        assert(b == k[j as int]);
                        assert(key@.push(b) =~= k.take(j + 1));
                    }
                }
                key.push(b);
                j += 1;
            },
            None => {
                proof {
                    assert forall|ct: u8, k: Seq<u8>| s@ != vk_text(tag_of(recursive), ct, k) by {
                        if s@ == vk_text(tag_of(recursive), ct, k) {
                            lemma_vk_text_parts(tag_of(recursive), ct, k);
                            assert(k.len() == nk);
                            lemma_hex_digits_of_byte(k[j as int]);
                        }
                    }
                }
                return None;
            },
        }
    }
    proof {
        assert forall|ct: u8, k: Seq<u8>|
            s@ == vk_text(tag_of(recursive), ct, k) implies key@ == k by {
            lemma_vk_text_parts(tag_of(recursive), ct, k);
            assert(k.len() == nk);
            assert(k.take(nk as int) =~= k);
        }
    }
    Some((ctv, key))
}

/// Decodes base-layer verification-key text.  Succeeds exactly on the texts
/// that `encode_base_layer_vk` produces, and returns exactly the artifact
/// that was encoded; every other input is rejected.
pub fn decode_base_layer_vk(text: &Vec<u8>) -> (r: Option<BaseLayerVerificationKey>)
    ensures
        match r {
            Some(v) => text@ == base_vk_text(v),
            None => forall|ct: u8, k: Seq<u8>| text@ != vk_text(base_layer_tag(), ct, k),
        },
{
    let fields = match extract_vk_fields(text, false) {
        Some(f) => f,
        None => {
            proof {
                assert forall|ct: u8, k: Seq<u8>| text@ != vk_text(base_layer_tag(), ct, k) by {
                    assert(vk_text(tag_of(false), ct, k) == vk_text(base_layer_tag(), ct, k));
                }
            }
            return None;
        },
    };
    let cand = BaseLayerVerificationKey { circuit_type: fields.0, key: fields.1 };
    let enc = encode_base_layer_vk(&cand);
    if bytes_eq(&enc, text) {
        Some(cand)
    } else {
        proof {
            assert forall|ct: u8, k: Seq<u8>| text@ != vk_text(base_layer_tag(), ct, k) by {
                assert(vk_text(tag_of(false), ct, k) == vk_text(base_layer_tag(), ct, k));
                if text@ == vk_text(base_layer_tag(), ct, k) {
                    assert(cand.circuit_type == ct && cand.key@ == k);
                    assert(enc@ == text@);
                }
            }
        }
        None
    }
}

/// Decodes recursive-layer verification-key text, with the same exactness.
pub fn decode_recursive_layer_vk(text: &Vec<u8>) -> (r: Option<RecursiveLayerVerificationKey>)
    ensures
        match r {
            Some(v) => text@ == recursive_vk_text(v),
            None => forall|ct: u8, k: Seq<u8>| text@ != vk_text(recursive_layer_tag(), ct, k),
        },
{
    let fields = match extract_vk_fields(text, true) {
        Some(f) => f,
        None => {
            proof {
                assert forall|ct: u8, k: Seq<u8>|
                    text@ != vk_text(recursive_layer_tag(), ct, k) by {
                    assert(vk_text(tag_of(true), ct, k) == vk_text(recursive_layer_tag(), ct, k));
                }
            }
            return None;
        },
    };
    let cand = RecursiveLayerVerificationKey { circuit_type: fields.0, key: fields.1 };
    let enc = encode_recursive_layer_vk(&cand);
    if bytes_eq(&enc, text) {
        Some(cand)
    } else {
        proof {
            assert forall|ct: u8, k: Seq<u8>| text@ != vk_text(recursive_layer_tag(), ct, k) by {
                assert(vk_text(tag_of(true), ct, k) == vk_text(recursive_layer_tag(), ct, k));
                if text@ == vk_text(recursive_layer_tag(), ct, k) {
                    assert(cand.circuit_type == ct && cand.key@ == k);
                    assert(enc@ == text@);
                }
            }
        }
        None
    }
}

} // verus!
