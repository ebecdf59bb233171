//! Content signatures: a 64-bit FNV-1a hash of the payload together with its length.
//!
//! The signature, not a version string, is what tells two bundles apart. The hash is not
//! cryptographic: payloads of one length that differ in several bytes can share it.

use vstd::arithmetic::div_mod::{lemma_mul_mod_noop_left, lemma_small_mod};
use vstd::prelude::*;
use vstd::string::StringExecFns;

verus! {

/// The state a hash starts from.
pub const FNV_OFFSET_BASIS: u64 = 0xcbf2_9ce4_8422_2325;

/// The multiplier of every hashing step.
pub const FNV_PRIME: u64 = 0x0000_0100_0000_01b3;

/// The inverse of the multiplier modulo 2^64.
pub const FNV_PRIME_INVERSE: u64 = 0xce96_5057_aff6_957b;

/// The identity key of a bundle payload.
#[derive(Debug, Clone, Copy, PartialEq, Eq, Structural)]
pub struct BundleSignature {
    pub hash: u64,
    pub len: u64,
}

/// One hashing step: the byte is folded into the state, which is then multiplied by the
/// prime modulo 2^64.
pub open spec fn mix(state: u64, byte: u8) -> u64 {
    (((state ^ (byte as u64)) as nat * FNV_PRIME as nat) % 0x1_0000_0000_0000_0000) as u64
}

/// The FNV-1a hash of `payload`.
pub open spec fn content_hash(payload: Seq<u8>) -> u64
    decreases payload.len(),
{
    if payload.len() == 0 {
        FNV_OFFSET_BASIS
    } else {
        mix(content_hash(payload.drop_last()), payload.last())
    }
}

/// The signature of `payload`.
pub open spec fn signature_of(payload: Seq<u8>) -> BundleSignature {
    BundleSignature { hash: content_hash(payload), len: payload.len() as u64 }
}

/// The lower-case hexadecimal digit of a value below 16.
pub open spec fn hex_digit(n: u64) -> char {
    if n == 0 {
        '0'
    } else if n == 1 {
        '1'
    } else if n == 2 {
        '2'
    } else if n == 3 {
        '3'
    } else if n == 4 {
        '4'
    } else if n == 5 {
        '5'
    } else if n == 6 {
        '6'
    } else if n == 7 {
        '7'
    } else if n == 8 {
        '8'
    } else if n == 9 {
        '9'
    } else if n == 10 {
        'a'
    } else if n == 11 {
        'b'
    } else if n == 12 {
        'c'
    } else if n == 13 {
        'd'
    } else if n == 14 {
        'e'
    } else {
        'f'
    }
}

/// The `index`-th group of four bits of `value`, counted from the most significant.
pub open spec fn nibble(value: u64, index: int) -> u64 {
    (value >> ((60 - 4 * index) as u64)) & 0xf
}

/// `value` as sixteen hexadecimal digits, most significant first.
pub open spec fn hex16(value: u64) -> Seq<char> {
    Seq::new(16, |i: int| hex_digit(nibble(value, i)))
}

/// The directory name of a signature: the hash, a hyphen, the length, both as sixteen
/// hexadecimal digits.
pub open spec fn signature_label(signature: BundleSignature) -> Seq<char> {
    hex16(signature.hash) + seq!['-'] + hex16(signature.len)
}

/// The digit of `n` as a string.
fn digit_text(n: u64) -> (text: &'static str)
    requires
        n < 16,
    ensures
        text@ == seq![hex_digit(n)],
{
    proof {
        reveal_strlit("0");
        reveal_strlit("1");
        reveal_strlit("2");
        reveal_strlit("3");
        reveal_strlit("4");
        reveal_strlit("5");
        reveal_strlit("6");
        reveal_strlit("7");
        reveal_strlit("8");
        reveal_strlit("9");
        reveal_strlit("a");
        reveal_strlit("b");
        reveal_strlit("c");
        reveal_strlit("d");
        reveal_strlit("e");
        reveal_strlit("f");
    }
    let text = if n == 0 {
        "0"
    } else if n == 1 {
        "1"
    } else if n == 2 {
        "2"
    } else if n == 3 {
        "3"
    } else if n == 4 {
        "4"
    } else if n == 5 {
        "5"
    } else if n == 6 {
        "6"
    } else if n == 7 {
        "7"
    } else if n == 8 {
        "8"
    } else if n == 9 {
        "9"
    } else if n == 10 {
        "a"
    } else if n == 11 {
        "b"
    } else if n == 12 {
        "c"
    } else if n == 13 {
        "d"
    } else if n == 14 {
        "e"
    } else {
        "f"
    };
    assert(text@ =~= seq![hex_digit(n)]);
    text
}

/// Appends the sixteen hexadecimal digits of `value` to `text`.
fn push_hex16(text: &mut String, value: u64)
    ensures
        final(text)@ == old(text)@ + hex16(value),
{
    let ghost before = text@;
    let mut i: u64 = 0;
    while i < 16
        invariant
            i <= 16,
            text@ == before + hex16(value).subrange(0, i as int),
        decreases 16 - i,
    {
        let shift: u64 = 60 - 4 * i;
        let n: u64 = (value >> shift) & 0xf;
        assert(n < 16) by (bit_vector)
            requires
                n == (value >> shift) & 0xf,
        ;
        text.append(digit_text(n));
        proof {
            assert(n == nibble(value, i as int));
            assert(hex16(value).subrange(0, i + 1) =~= hex16(value).subrange(0, i as int)
                + seq![hex_digit(n)]);
        }
        i += 1;
    }
    proof {
        assert(hex16(value).subrange(0, 16) =~= hex16(value));
    }
}

impl BundleSignature {
    /// Computes the signature of `payload`.
    pub fn of(payload: &[u8]) -> (signature: BundleSignature)
        ensures
            signature == signature_of(payload@),
    {
        let mut hash: u64 = FNV_OFFSET_BASIS;
        let mut i: usize = 0;
        while i < payload.len()
            invariant
                i <= payload.len(),
                hash == content_hash(payload@.subrange(0, i as int)),
            decreases payload.len() - i,
        {
            proof {
                let next = payload@.subrange(0, i + 1);
                assert(next.drop_last() == payload@.subrange(0, i as int));
                assert(next.last() == payload@[i as int]);
            }
            hash = (hash ^ (payload[i] as u64)).wrapping_mul(FNV_PRIME);
            i += 1;
        }
        proof {
            assert(payload@.subrange(0, payload@.len() as int) == payload@);
        }
        BundleSignature { hash, len: payload.len() as u64 }
    }

    /// Writes the signature as a directory name.
    pub fn label(&self) -> (text: String)
        ensures
            text@ == signature_label(*self),
    {
        let mut text = String::new();
        push_hex16(&mut text, self.hash);
        proof {
            reveal_strlit("-");
            assert("-"@ =~= seq!['-']);
        }
        text.append("-");
        push_hex16(&mut text, self.len);
        text
    }
}

/// A hashing step never maps two states to one: multiplying by the prime is undone by
/// multiplying with its inverse, and folding a byte in is undone by folding it in again.
pub proof fn lemma_mix_injective_in_state(a: u64, b: u64, byte: u8)
    requires
        mix(a, byte) == mix(b, byte),
    ensures
        a == b,
{
    let x = a ^ (byte as u64);
    let y = b ^ (byte as u64);
    lemma_multiplication_undone(x);
    lemma_multiplication_undone(y);
    assert(x == y);
    assert(a == b) by (bit_vector)
        requires
            a ^ (byte as u64) == b ^ (byte as u64),
    ;
}

/// A hashing step never maps two bytes to one.
pub proof fn lemma_mix_injective_in_byte(state: u64, a: u8, b: u8)
    requires
        mix(state, a) == mix(state, b),
    ensures
        a == b,
{
    let x = state ^ (a as u64);
    let y = state ^ (b as u64);
    lemma_multiplication_undone(x);
    lemma_multiplication_undone(y);
    assert(x == y);
    assert(a == b) by (bit_vector)
        requires
            state ^ (a as u64) == state ^ (b as u64),
    ;
}

/// Multiplying by the prime and then by its inverse, both modulo 2^64, gives `x` back.
proof fn lemma_multiplication_undone(x: u64)
    ensures
        (((x as nat * FNV_PRIME as nat) % 0x1_0000_0000_0000_0000) * FNV_PRIME_INVERSE as nat)
            % 0x1_0000_0000_0000_0000 == x,
{
    let m: int = 0x1_0000_0000_0000_0000;
    let p: int = FNV_PRIME as int;
    let q: int = FNV_PRIME_INVERSE as int;
    let xi: int = x as int;
    assert(p * q == 0xce_9650_590f * m + 1);
    lemma_mul_mod_noop_left(xi * p, q, m);
    assert((xi * p) * q == xi * (0xce_9650_590f * m + 1)) by (nonlinear_arith)
        requires
            p * q == 0xce_9650_590f * m + 1,
    ;
    assert(xi * (0xce_9650_590f * m + 1) == (xi * 0xce_9650_590f) * m + xi)
        by (nonlinear_arith);
    vstd::arithmetic::div_mod::lemma_mod_multiples_vanish(xi * 0xce_9650_590f, xi, m);
    lemma_small_mod(x as nat, m as nat);
}

/// Payloads of one length that differ in exactly one byte have different hashes.
pub proof fn lemma_one_byte_changes_hash(a: Seq<u8>, b: Seq<u8>, at: int)
    requires
        a.len() == b.len(),
        0 <= at < a.len(),
        a[at] != b[at],
        forall|i: int| 0 <= i < a.len() && i != at ==> a[i] == b[i],
    ensures
        content_hash(a) != content_hash(b),
    decreases a.len(),
{
    let n = a.len() - 1;
    if at == n {
        assert(a.drop_last() =~= b.drop_last());
        if content_hash(a) == content_hash(b) {
            lemma_mix_injective_in_byte(content_hash(a.drop_last()), a.last(), b.last());
        }
    } else {
        lemma_one_byte_changes_hash(a.drop_last(), b.drop_last(), at);
        if content_hash(a) == content_hash(b) {
            lemma_mix_injective_in_state(
                content_hash(a.drop_last()),
                content_hash(b.drop_last()),
                a.last(),
            );
        }
    }
}

/// Payloads of different lengths have different signatures, and so have payloads of one
/// length that differ in exactly one byte.
pub proof fn changed_payload_changes_signature(a: Seq<u8>, b: Seq<u8>)
    requires
        a.len() <= u64::MAX,
        b.len() <= u64::MAX,
        a.len() != b.len() || exists|at: int|
            0 <= at < a.len() && a[at] != b[at] && forall|i: int|
                0 <= i < a.len() && i != at ==> a[i] == b[i],
    ensures
        signature_of(a) != signature_of(b),
{
    if a.len() == b.len() {
        let at = choose|at: int|
            0 <= at < a.len() && a[at] != b[at] && forall|i: int|
                0 <= i < a.len() && i != at ==> a[i] == b[i];
        lemma_one_byte_changes_hash(a, b, at);
    }
}

/// Values below 16 with one digit are equal.
proof fn lemma_hex_digit_injective(x: u64, y: u64)
    requires
        x < 16,
        y < 16,
        hex_digit(x) == hex_digit(y),
    ensures
        x == y,
{
}

/// Sixteen digits determine the value they spell.
pub proof fn lemma_hex16_injective(a: u64, b: u64)
    requires
        hex16(a) == hex16(b),
    ensures
        a == b,
{
    assert forall|i: int| 0 <= i < 16 implies nibble(a, i) == nibble(b, i) by {
        assert(hex16(a)[i] == hex16(b)[i]);
        let x = nibble(a, i);
        let y = nibble(b, i);
        let s = (60 - 4 * i) as u64;
        assert(x < 16 && y < 16) by (bit_vector)
            requires
                x == (a >> s) & 0xf,
                y == (b >> s) & 0xf,
        ;
        assert(hex16(a)[i] == hex_digit(x));
        assert(hex16(b)[i] == hex_digit(y));
        lemma_hex_digit_injective(x, y);
    }
    assert(nibble(a, 0) == nibble(b, 0) && nibble(a, 1) == nibble(b, 1) && nibble(a, 2)
        == nibble(b, 2) && nibble(a, 3) == nibble(b, 3) && nibble(a, 4) == nibble(b, 4)
        && nibble(a, 5) == nibble(b, 5) && nibble(a, 6) == nibble(b, 6) && nibble(a, 7)
        == nibble(b, 7) && nibble(a, 8) == nibble(b, 8) && nibble(a, 9) == nibble(b, 9)
        && nibble(a, 10) == nibble(b, 10) && nibble(a, 11) == nibble(b, 11) && nibble(a, 12)
        == nibble(b, 12) && nibble(a, 13) == nibble(b, 13) && nibble(a, 14) == nibble(b, 14)
        && nibble(a, 15) == nibble(b, 15));
    assert(a == b) by (bit_vector)
        requires
            (a >> 60u64) & 0xf == (b >> 60u64) & 0xf,
            (a >> 56u64) & 0xf == (b >> 56u64) & 0xf,
            (a >> 52u64) & 0xf == (b >> 52u64) & 0xf,
            (a >> 48u64) & 0xf == (b >> 48u64) & 0xf,
            (a >> 44u64) & 0xf == (b >> 44u64) & 0xf,
            (a >> 40u64) & 0xf == (b >> 40u64) & 0xf,
            (a >> 36u64) & 0xf == (b >> 36u64) & 0xf,
            (a >> 32u64) & 0xf == (b >> 32u64) & 0xf,
            (a >> 28u64) & 0xf == (b >> 28u64) & 0xf,
            (a >> 24u64) & 0xf == (b >> 24u64) & 0xf,
            (a >> 20u64) & 0xf == (b >> 20u64) & 0xf,
            (a >> 16u64) & 0xf == (b >> 16u64) & 0xf,
            (a >> 12u64) & 0xf == (b >> 12u64) & 0xf,
            (a >> 8u64) & 0xf == (b >> 8u64) & 0xf,
            (a >> 4u64) & 0xf == (b >> 4u64) & 0xf,
            (a >> 0u64) & 0xf == (b >> 0u64) & 0xf,
    ;
}

/// Different signatures have different directory names.
pub proof fn lemma_label_injective(a: BundleSignature, b: BundleSignature)
    requires
        signature_label(a) == signature_label(b),
    ensures
        a == b,
{
    let la = signature_label(a);
    let lb = signature_label(b);
    assert(la.subrange(0, 16) =~= hex16(a.hash));
    assert(lb.subrange(0, 16) =~= hex16(b.hash));
    assert(la.subrange(17, 33) =~= hex16(a.len));
    assert(lb.subrange(17, 33) =~= hex16(b.len));
    lemma_hex16_injective(a.hash, b.hash);
    lemma_hex16_injective(a.len, b.len);
}

} // verus!
