use vstd::prelude::*;

verus! {

/// ASCII byte of a single hex digit, lowercase.
pub open spec fn hex_digit(d: nat) -> u8 {
    if d < 10 {
        (48 + d) as u8
    } else {
        (87 + d) as u8
    }
}

/// Whether a byte is a lowercase hex digit character.
pub open spec fn is_hex_digit(c: u8) -> bool {
    (48 <= c && c <= 57) || (97 <= c && c <= 102)
}

/// Numeric value of a hex digit character.
pub open spec fn hex_val(c: u8) -> nat {
    if c <= 57 {
        (c - 48) as nat
    } else {
        (c - 87) as nat
    }
}

/// Hex text of a byte sequence: two digits per byte, high digit first.
pub open spec fn hex_of(s: Seq<u8>) -> Seq<u8>
    decreases s.len(),
{
    if s.len() == 0 {
        Seq::empty()
    } else {
        seq![hex_digit((s[0] / 16) as nat), hex_digit((s[0] % 16) as nat)] + hex_of(s.skip(1))
    }
}

/// A hex digit is its own value's digit again.
pub proof fn lemma_hex_digit_val(d: nat)
    requires
        d < 16,
    ensures
        is_hex_digit(hex_digit(d)),
        hex_val(hex_digit(d)) == d,
{
}

/// The two digits of a byte give the byte back.
pub proof fn lemma_hex_digits_of_byte(b: u8)
    ensures
        is_hex_digit(hex_digit((b / 16) as nat)),
        is_hex_digit(hex_digit((b % 16) as nat)),
        16 * hex_val(hex_digit((b / 16) as nat)) + hex_val(hex_digit((b % 16) as nat)) == b,
{
    lemma_hex_digit_val((b / 16) as nat);
    lemma_hex_digit_val((b % 16) as nat);
}

/// Hex text is twice as long as its source.
pub proof fn lemma_hex_of_len(s: Seq<u8>)
    ensures
        hex_of(s).len() == 2 * s.len(),
    decreases s.len(),
{
    if s.len() > 0 {
        lemma_hex_of_len(s.skip(1));
    }
}

/// The digits at positions `2j` and `2j + 1` of the hex text are the digits
/// of the source byte at position `j`.
pub proof fn lemma_hex_of_index(s: Seq<u8>, j: int)
    requires
        0 <= j < s.len(),
    ensures
        hex_of(s)[2 * j] == hex_digit((s[j] / 16) as nat),
        hex_of(s)[2 * j + 1] == hex_digit((s[j] % 16) as nat),
    decreases j,
{
    lemma_hex_of_len(s.skip(1));
    if j > 0 {
        lemma_hex_of_index(s.skip(1), j - 1);
    }
}

/// Appending a byte appends its two digits.
pub proof fn lemma_hex_of_push(s: Seq<u8>, x: u8)
    ensures
        hex_of(s.push(x)) == hex_of(s) + seq![
            hex_digit((x / 16) as nat),
            hex_digit((x % 16) as nat),
        ],
    decreases s.len(),
{
    if s.len() == 0 {
        assert(s.push(x).skip(1) =~= Seq::<u8>::empty());
        assert(s.push(x)[0] == x);
        assert(hex_of(s.push(x)) == seq![
            hex_digit((x / 16) as nat),
            hex_digit((x % 16) as nat),
        ] + hex_of(Seq::<u8>::empty()));
        assert(hex_of(Seq::<u8>::empty()) =~= Seq::<u8>::empty());
        assert(hex_of(s.push(x)) =~= hex_of(s) + seq![
            hex_digit((x / 16) as nat),
            hex_digit((x % 16) as nat),
        ]);
    } else {
        assert(s.push(x).skip(1) =~= s.skip(1).push(x));
        lemma_hex_of_push(s.skip(1), x);
        assert(s.push(x)[0] == s[0]);
        assert(hex_of(s.push(x)) =~= hex_of(s) + seq![
            hex_digit((x / 16) as nat),
            hex_digit((x % 16) as nat),
        ]);
    }
}

/// Hex text determines the source: equal texts come from equal sources.
pub proof fn lemma_hex_of_injective(a: Seq<u8>, b: Seq<u8>)
    requires
        hex_of(a) == hex_of(b),
    ensures
        a == b,
{
    lemma_hex_of_len(a);
    lemma_hex_of_len(b);
    assert forall|j: int| 0 <= j < a.len() implies a[j] == b[j] by {
        lemma_hex_of_index(a, j);
        lemma_hex_of_index(b, j);
        lemma_hex_digits_of_byte(a[j]);
        lemma_hex_digits_of_byte(b[j]);
    }
    assert(a =~= b);
}

/// Exec counterpart of `hex_digit`.
fn hex_digit_exec(d: u8) -> (c: u8)
    requires
        d < 16,
    ensures
        c == hex_digit(d as nat),
{
    if d < 10 {
        48 + d
    } else {
        87 + d
    }
}

/// Appends the hex text of `src` to `dst`.
pub fn push_hex(dst: &mut Vec<u8>, src: &Vec<u8>)
    ensures
        final(dst)@ == old(dst)@ + hex_of(src@),
{
    let mut i: usize = 0;
    while i < src.len()
        invariant
            i <= src@.len(),
            dst@ == old(dst)@ + hex_of(src@.take(i as int)),
        decreases src@.len() - i,
    {
        let b = src[i];
        dst.push(hex_digit_exec(b / 16));
        dst.push(hex_digit_exec(b % 16));
        proof {
            lemma_hex_of_push(src@.take(i as int), b);
            assert(src@.take(i as int).push(b) =~= src@.take(i + 1));
            assert(dst@ =~= old(dst)@ + hex_of(src@.take(i + 1)));
        }
        i += 1;
    }
    assert(src@.take(src@.len() as int) =~= src@);
}

/// Decodes one byte from its two hex digit characters; rejects anything that
/// is not a pair of lowercase hex digits.
pub fn hex_byte(hi: u8, lo: u8) -> (r: Option<u8>)
    ensures
        match r {
            Some(v) => is_hex_digit(hi) && is_hex_digit(lo) && v as nat == 16 * hex_val(hi)
                + hex_val(lo),
            None => !is_hex_digit(hi) || !is_hex_digit(lo),
        },
{
    let h: u8 = if 48 <= hi && hi <= 57 {
        hi - 48
    } else if 97 <= hi && hi <= 102 {
        hi - 87
    } else {
        return None;
    };
    let l: u8 = if 48 <= lo && lo <= 57 {
        lo - 48
    } else if 97 <= lo && lo <= 102 {
        lo - 87
    } else {
        return None;
    };
    Some(16 * h + l)
}

/// Appends the bytes of `src` to `dst`.
pub fn push_all(dst: &mut Vec<u8>, src: &Vec<u8>)
    ensures
        final(dst)@ == old(dst)@ + src@,
{
    let mut i: usize = 0;
    while i < src.len()
        invariant
            i <= src@.len(),
            dst@ == old(dst)@ + src@.take(i as int),
        decreases src@.len() - i,
    {
        dst.push(src[i]);
        assert(src@.take(i as int).push(src@[i as int]) =~= src@.take(i + 1));
        i += 1;
    }
    assert(src@.take(src@.len() as int) =~= src@);
}

/// True exactly when the two byte vectors hold the same bytes.
pub fn bytes_eq(a: &Vec<u8>, b: &Vec<u8>) -> (r: bool)
    ensures
        r == (a@ == b@),
{
    if a.len() != b.len() {
        proof {
            assert(a@.len() != b@.len());
        }
        return false;
    }
    let mut i: usize = 0;
    while i < a.len()
        invariant
            i <= a@.len(),
            a@.len() == b@.len(),
            forall|j: int| 0 <= j < i ==> a@[j] == b@[j],
        decreases a@.len() - i,
    {
        if a[i] != b[i] {
            proof {
                assert(a@[i as int] != b@[i as int]);
            }
            return false;
        }
        i += 1;
    }
    proof {
        assert(a@ =~= b@);
    }
    true
}

} // verus!
