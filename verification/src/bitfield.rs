//! Semantics of the generated field accessors.
//!
//! A register is a single unsigned storage word of 8, 16, 32 or 64 bits;
//! a field occupies the contiguous bit range `[lsb, msb]` of that word.
//! The functions here give the exact meaning of the accessors the code
//! generator emits: masked extraction, sign extension for two's-complement
//! fields, and bounds-checked insertion that leaves every bit outside the
//! field untouched.  A `u64` carries the storage word of every supported
//! width.

use vstd::prelude::*;
use vstd::arithmetic::power2::{pow2, lemma_pow2_adds, lemma_pow2_pos, lemma2_to64, lemma2_to64_rest};
use vstd::arithmetic::div_mod::{
    lemma_fundamental_div_mod_converse, lemma_mod_multiples_vanish, lemma_small_mod,
};
use vstd::arithmetic::power2::lemma_pow2_unfold;
use vstd::bits::{
    low_bits_mask, lemma_u64_low_bits_mask_is_mod, lemma_u64_pow2_no_overflow,
    lemma_u64_shl_is_mul, lemma_u64_shr_is_div,
};

verus! {

/// The storage word widths a register may use.
pub open spec fn supported_width(size: u8) -> bool {
    size == 8 || size == 16 || size == 32 || size == 64
}

/// Number of bits the field `[lsb, msb]` occupies.
pub open spec fn field_width(lsb: u8, msb: u8) -> nat
    recommends
        lsb <= msb,
{
    (msb - lsb + 1) as nat
}

/// All-ones mask as wide as the field, in the low bits of the word.
pub open spec fn field_mask(lsb: u8, msb: u8) -> u64
    recommends
        lsb <= msb < 64,
{
    u64::MAX >> ((63 - (msb - lsb)) as u64)
}

/// The raw bits of the field: the word shifted down to the field's
/// least significant bit, masked to the field's width.
pub open spec fn spec_extract(word: u64, lsb: u8, msb: u8) -> u64
    recommends
        lsb <= msb < 64,
{
    (word >> (lsb as u64)) & field_mask(lsb, msb)
}

/// The word after the field's bits are replaced by `v` (truncated to the
/// field's width); all other bits keep their value.
pub open spec fn spec_insert(word: u64, lsb: u8, msb: u8, v: u64) -> u64
    recommends
        lsb <= msb < 64,
{
    (word & !(field_mask(lsb, msb) << (lsb as u64))) | ((v & field_mask(lsb, msb)) << (lsb as u64))
}

/// The field mask is the low `field_width` bits, all set.
pub proof fn lemma_field_mask_eq(lsb: u8, msb: u8)
    requires
        lsb <= msb < 64,
    ensures
        field_mask(lsb, msb) == low_bits_mask(field_width(lsb, msb)) as u64,
        field_mask(lsb, msb) as nat == low_bits_mask(field_width(lsb, msb)),
        field_mask(lsb, msb) as nat == pow2(field_width(lsb, msb)) - 1,
{
    let w = field_width(lsb, msb);
    let s = (64 - w) as nat;
    assert(1 <= w <= 64);
    lemma_u64_shr_is_div(u64::MAX, s as u64);
    lemma2_to64();
    lemma2_to64_rest();
    lemma_pow2_adds(s, w);
    lemma_pow2_pos(s);
    lemma_pow2_pos(w);
    let a = pow2(s) as int;
    let b = pow2(w) as int;
    assert(u64::MAX as int == a * b - 1);
    assert(a * b - 1 == (b - 1) * a + (a - 1)) by (nonlinear_arith);
    lemma_fundamental_div_mod_converse(a * b - 1, a, b - 1, a - 1);
    assert(u64::MAX as nat / pow2(s) == (b - 1) as nat);
}

/// The value held by the unsigned field `[lsb, msb]` of `word`: the
/// extracted bits read as a plain binary number, which equals
/// `(word / 2^lsb) mod 2^width`.
pub fn read_field_unsigned(word: u64, lsb: u8, msb: u8, size: u8) -> (r: u64)
    requires
        supported_width(size),
        lsb <= msb < size,
    ensures
        r == spec_extract(word, lsb, msb),
        r as nat == ((word as nat) / pow2(lsb as nat)) % pow2(field_width(lsb, msb)),
        r <= field_mask(lsb, msb),
{
    let mask: u64 = u64::MAX >> ((63 - (msb - lsb)) as u64);
    let shifted: u64 = word >> (lsb as u64);
    let r = shifted & mask;
    proof {
        assert(r <= mask) by (bit_vector)
            requires
                r == shifted & mask,
        ;
        lemma_field_mask_eq(lsb, msb);
        lemma_u64_shr_is_div(word, lsb as u64);
        let w = field_width(lsb, msb);
        if w < 64 {
            lemma_u64_pow2_no_overflow(w);
            lemma_u64_low_bits_mask_is_mod(shifted, w);
            assert(r == shifted % (pow2(w) as u64));
            assert(r as nat == (shifted as nat) % pow2(w));
        } else {
            assert(shifted & 0xffff_ffff_ffff_ffffu64 == shifted) by (bit_vector);
            lemma2_to64_rest();
            lemma_small_mod(shifted as nat, pow2(64));
        }
    }
    r
}

/// Bit `k` of the storage word.
pub open spec fn word_bit(w: u64, k: u64) -> bool
    recommends
        k < 64,
{
    (w >> k) & 1 == 1
}

/// The two's-complement value read from `bits` as a `width`-bit field:
/// plain binary below the sign bit, `bits - 2^width` once the sign bit is set.
pub open spec fn spec_signed_value(bits: u64, width: nat) -> int
    recommends
        1 <= width <= 64,
        bits < pow2(width),
{
    if (bits as nat) < pow2((width - 1) as nat) {
        bits as int
    } else {
        bits as int - pow2(width)
    }
}

/// The low `width` bits of `value` in two's complement, i.e. `value mod 2^width`.
pub open spec fn spec_truncate(value: i64, width: nat) -> u64
    recommends
        1 <= width <= 64,
{
    ((value as int) % (pow2(width) as int)) as u64
}

proof fn lemma_bv_insert_get(w: u64, v: u64, l: u64, d: u64)
    by (bit_vector)
    requires
        l + d < 64,
        v <= u64::MAX >> ((63 - d) as u64),
    ensures
        (((w & !((u64::MAX >> ((63 - d) as u64)) << l)) | ((v & (u64::MAX >> ((63 - d) as u64)))
            << l)) >> l) & (u64::MAX >> ((63 - d) as u64)) == v,
{
}

proof fn lemma_bv_insert_outside(w: u64, v: u64, l: u64, d: u64, k: u64)
    by (bit_vector)
    requires
        l + d < 64,
        k < 64,
        k < l || l + d < k,
    ensures
        (((w & !((u64::MAX >> ((63 - d) as u64)) << l)) | ((v & (u64::MAX >> ((63 - d) as u64)))
            << l)) >> k) & 1 == (w >> k) & 1,
{
}

proof fn lemma_bv_insert_below(w: u64, v: u64, l: u64, d: u64, s: u64)
    by (bit_vector)
    requires
        l + d < s,
        s < 64,
        w < (1u64 << s),
    ensures
        ((w & !((u64::MAX >> ((63 - d) as u64)) << l)) | ((v & (u64::MAX >> ((63 - d) as u64)))
            << l)) < (1u64 << s),
{
}

proof fn lemma_bv_mask_drop(v: u64, d: u64)
    by (bit_vector)
    requires
        d < 64,
        v <= u64::MAX >> ((63 - d) as u64),
    ensures
        v & (u64::MAX >> ((63 - d) as u64)) == v,
{
}

/// Inserting a value into a field and extracting the same field gives the
/// value back, whatever the rest of the word holds.
pub proof fn lemma_insert_then_extract(word: u64, lsb: u8, msb: u8, v: u64)
    requires
        lsb <= msb < 64,
        v <= field_mask(lsb, msb),
    ensures
        spec_extract(spec_insert(word, lsb, msb, v), lsb, msb) == v,
{
    lemma_bv_insert_get(word, v, lsb as u64, (msb - lsb) as u64);
}

/// Inserting a value into a field leaves every bit outside `[lsb, msb]`
/// exactly as it was.
pub proof fn lemma_insert_preserves_outside(word: u64, lsb: u8, msb: u8, v: u64)
    requires
        lsb <= msb < 64,
    ensures
        forall|k: u64|
            k < 64 && (k < lsb || msb < k) ==> word_bit(spec_insert(word, lsb, msb, v), k)
                == word_bit(word, k),
{
    assert forall|k: u64| k < 64 && (k < lsb || msb < k) implies word_bit(
        spec_insert(word, lsb, msb, v),
        k,
    ) == word_bit(word, k) by {
        lemma_bv_insert_outside(word, v, lsb as u64, (msb - lsb) as u64, k);
    }
}

/// Inserting into a field below bit `size` keeps the word below `2^size`.
pub proof fn lemma_insert_stays_below(word: u64, lsb: u8, msb: u8, v: u64, size: u8)
    requires
        lsb <= msb < size,
        size <= 64,
        word < pow2(size as nat),
    ensures
        spec_insert(word, lsb, msb, v) < pow2(size as nat),
{
    if size == 64 {
        lemma2_to64_rest();
    } else {
        lemma_u64_pow2_no_overflow(size as nat);
        lemma_u64_shl_is_mul(1u64, size as u64);
        lemma_bv_insert_below(word, v, lsb as u64, (msb - lsb) as u64, size as u64);
    }
}

/// Write `value` into the unsigned field `[lsb, msb]` of the word.
///
/// A value too wide for the field (`value >= 2^width`) is rejected and the
/// word is left untouched; otherwise the field's bits become `value`, every
/// bit outside the field keeps its value, and reading the field back yields
/// `value` again.
pub fn write_field_unsigned(word: &mut u64, value: u64, lsb: u8, msb: u8, size: u8) -> (ok: bool)
    requires
        supported_width(size),
        lsb <= msb < size,
    ensures
        ok <==> (value as nat) < pow2(field_width(lsb, msb)),
        !ok ==> *final(word) == *old(word),
        ok ==> *final(word) == spec_insert(*old(word), lsb, msb, value),
        ok ==> spec_extract(*final(word), lsb, msb) == value,
        forall|k: u64|
            k < 64 && (k < lsb || msb < k) ==> word_bit(*final(word), k) == word_bit(
                *old(word),
                k,
            ),
        *old(word) < pow2(size as nat) ==> *final(word) < pow2(size as nat),
{
    let mask: u64 = u64::MAX >> ((63 - (msb - lsb)) as u64);
    proof {
        lemma_field_mask_eq(lsb, msb);
        lemma_pow2_pos(field_width(lsb, msb));
    }
    if value > mask {
        return false;
    }
    let ghost w0: u64 = *word;
    *word = (*word & !(mask << (lsb as u64))) | ((value & mask) << (lsb as u64));
    proof {
        assert(*word == spec_insert(w0, lsb, msb, value));
        lemma_insert_then_extract(w0, lsb, msb, value);
        lemma_insert_preserves_outside(w0, lsb, msb, value);
        if w0 < pow2(size as nat) {
            lemma_insert_stays_below(w0, lsb, msb, value, size);
        }
    }
    true
}

/// The value held by the signed (two's-complement) field `[lsb, msb]` of
/// `word`: the extracted bits, sign-extended from the field's width.
pub fn read_field_signed(word: u64, lsb: u8, msb: u8, size: u8) -> (r: i64)
    requires
        supported_width(size),
        lsb <= msb < size,
    ensures
        r as int == spec_signed_value(spec_extract(word, lsb, msb), field_width(lsb, msb)),
{
    let mask: u64 = u64::MAX >> ((63 - (msb - lsb)) as u64);
    let bits: u64 = (word >> (lsb as u64)) & mask;
    let width: u8 = msb - lsb + 1;
    let ghost d: u64 = (msb - lsb) as u64;
    proof {
        lemma_field_mask_eq(lsb, msb);
        assert(bits <= mask) by (bit_vector)
            requires
                bits == (word >> (lsb as u64)) & mask,
        ;
        lemma_u64_pow2_no_overflow((width - 1) as nat);
        if width < 64 {
            lemma_u64_shl_is_mul(1u64, (width - 1) as u64);
        } else {
            lemma2_to64_rest();
            assert(1u64 << 63u64 == 0x8000_0000_0000_0000u64) by (bit_vector);
        }
        lemma_pow2_unfold(width as nat);
    }
    let sign_bit: u64 = 1u64 << ((width - 1) as u64);
    if bits & sign_bit == 0 {
        proof {
            assert(bits < sign_bit) by (bit_vector)
                requires
                    bits & sign_bit == 0,
                    bits <= u64::MAX >> ((63 - d) as u64),
                    sign_bit == 1u64 << d,
                    d < 64,
            ;
        }
        bits as i64
    } else {
        proof {
            assert(bits >= sign_bit) by (bit_vector)
                requires
                    bits & sign_bit != 0,
                    sign_bit == 1u64 << d,
                    d < 64,
            ;
        }
        if width == 64 {
            let diff: u64 = u64::MAX - bits;
            -(diff as i64) - 1
        } else {
            let p: u64 = 1u64 << (width as u64);
            proof {
                lemma_u64_pow2_no_overflow(width as nat);
                lemma_u64_shl_is_mul(1u64, width as u64);
            }
            let diff: u64 = p - bits;
            -(diff as i64)
        }
    }
}

/// Write `value` into the signed (two's-complement) field `[lsb, msb]`.
///
/// Values outside `[-2^(width-1), 2^(width-1) - 1]` are rejected and the word
/// is left untouched; otherwise the field's bits become the low `width` bits
/// of `value`'s two's complement, every bit outside the field keeps its
/// value, and a signed read of the field yields `value` again.
pub fn write_field_signed(word: &mut u64, value: i64, lsb: u8, msb: u8, size: u8) -> (ok: bool)
    requires
        supported_width(size),
        lsb <= msb < size,
    ensures
        ok <==> (-(pow2((field_width(lsb, msb) - 1) as nat) as int) <= value as int && (value as int)
            < pow2((field_width(lsb, msb) - 1) as nat) as int),
        !ok ==> *final(word) == *old(word),
        ok ==> *final(word) == spec_insert(
            *old(word),
            lsb,
            msb,
            spec_truncate(value, field_width(lsb, msb)),
        ),
        ok ==> spec_signed_value(spec_extract(*final(word), lsb, msb), field_width(lsb, msb))
            == value as int,
        forall|k: u64|
            k < 64 && (k < lsb || msb < k) ==> word_bit(*final(word), k) == word_bit(
                *old(word),
                k,
            ),
        *old(word) < pow2(size as nat) ==> *final(word) < pow2(size as nat),
{
    let width: u8 = msb - lsb + 1;
    let mask: u64 = u64::MAX >> ((63 - (msb - lsb)) as u64);
    proof {
        lemma_field_mask_eq(lsb, msb);
        lemma_pow2_unfold(width as nat);
        lemma_pow2_pos((width - 1) as nat);
        if width < 64 {
            lemma_u64_pow2_no_overflow((width - 1) as nat);
        } else {
            lemma2_to64_rest();
        }
    }
    let ghost half: int = pow2((field_width(lsb, msb) - 1) as nat) as int;
    let ok: bool;
    if width == 64 {
        ok = true;
        proof {
            lemma2_to64_rest();
            assert(-half <= value as int && (value as int) < half);
        }
    } else {
        let bound_u: u64 = 1u64 << ((width - 1) as u64);
        proof {
            lemma_u64_shl_is_mul(1u64, (width - 1) as u64);
            lemma2_to64_rest();
            vstd::arithmetic::power2::lemma_pow2_strictly_increases((width - 1) as nat, 63);
            assert(bound_u as int == half);
            assert(bound_u < 0x8000_0000_0000_0000u64);
        }
        let bound: i64 = bound_u as i64;
        ok = -bound <= value && value < bound;
        proof {
            assert(ok <==> (-half <= value as int && (value as int) < half));
        }
    }
    if !ok {
        return false;
    }
    let ghost wd: nat = field_width(lsb, msb);
    let bits: u64 = if value >= 0 {
        proof {
            lemma_small_mod(value as nat, pow2(wd));
        }
        value as u64
    } else if width == 64 {
        proof {
            lemma_mod_multiples_vanish(1, value as int, pow2(64) as int);
            lemma_small_mod((pow2(64) + value as int) as nat, pow2(64));
        }
        u64::MAX - ((-(value + 1)) as u64)
    } else {
        proof {
            lemma_u64_pow2_no_overflow(width as nat);
            lemma_u64_shl_is_mul(1u64, width as u64);
            lemma_mod_multiples_vanish(1, value as int, pow2(wd) as int);
            lemma_small_mod((pow2(wd) + value as int) as nat, pow2(wd));
        }
        (1u64 << (width as u64)) - ((-value) as u64)
    };
    proof {
        assert(bits == spec_truncate(value, wd));
        assert(bits <= mask);
    }
    let ghost w0: u64 = *word;
    *word = (*word & !(mask << (lsb as u64))) | ((bits & mask) << (lsb as u64));
    proof {
        assert(*word == spec_insert(w0, lsb, msb, bits));
        lemma_insert_then_extract(w0, lsb, msb, bits);
        lemma_insert_preserves_outside(w0, lsb, msb, bits);
        if w0 < pow2(size as nat) {
            lemma_insert_stays_below(w0, lsb, msb, bits, size);
        }
    }
    true
}

} // verus!
