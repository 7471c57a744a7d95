//! Big-endian numbers and the byte-level form of BLS12-381 point encodings.
//!
//! An uncompressed point encoding is a run of 48-byte big-endian base field
//! elements (two for G1, four for G2). The three most significant bits of
//! the first byte carry flags. The host accepts an encoding as well formed
//! when either the infinity flag alone is set and every other bit is zero,
//! or no flag is set and every coordinate is below the field modulus `p`.
//! Whether the decoded point lies on the curve and in the subgroup is left
//! to the host.

use vstd::prelude::*;

verus! {

/// The modulus `p` of the BLS12-381 base field, big-endian.
pub const FP_MODULUS_BE: [u8; 48] = [
    0x1a, 0x01, 0x11, 0xea, 0x39, 0x7f, 0xe6, 0x9a, 0x4b, 0x1b, 0xa7, 0xb6, 0x43, 0x4b, 0xac, 0xd7,
    0x64, 0x77, 0x4b, 0x84, 0xf3, 0x85, 0x12, 0xbf, 0x67, 0x30, 0xd2, 0xa0, 0xf6, 0xb0, 0xf6, 0x24,
    0x1e, 0xab, 0xff, 0xfe, 0xb1, 0x53, 0xff, 0xff, 0xb9, 0xfe, 0xff, 0xff, 0xff, 0xff, 0xaa, 0xab,
];

/// The number that `bytes` encodes, most significant byte first.
pub open spec fn be_value(bytes: Seq<u8>) -> nat
    decreases bytes.len(),
{
    if bytes.len() == 0 {
        0
    } else {
        be_value(bytes.drop_last()) * 256 + bytes.last() as nat
    }
}

/// `256` to the power `n`.
pub open spec fn pow256(n: nat) -> nat
    decreases n,
{
    if n == 0 {
        1
    } else {
        256 * pow256((n - 1) as nat)
    }
}

/// Whether the 48 bytes encode a canonical base field element: a number
/// below `p`.
pub open spec fn fp_canonical(bytes: Seq<u8>) -> bool {
    be_value(bytes) < be_value(FP_MODULUS_BE@)
}

/// The `k`-th 48-byte coordinate of an encoding.
pub open spec fn coordinate(bytes: Seq<u8>, k: int) -> Seq<u8> {
    bytes.subrange(48 * k, 48 * k + 48)
}

/// Whether every byte of `bytes` after the first is zero.
pub open spec fn rest_is_zero(bytes: Seq<u8>) -> bool {
    forall|i: int| 1 <= i < bytes.len() ==> #[trigger] bytes[i] == 0
}

/// Whether the host accepts the 96 bytes as the uncompressed encoding of a
/// G1 point: the point at infinity (first byte `0x40`, all else zero), or
/// no flag set and both coordinates below `p`.
pub open spec fn g1_encoding_ok(bytes: Seq<u8>) -> bool {
    &&& bytes.len() == 96
    &&& {
        ||| bytes[0] == 0x40 && rest_is_zero(bytes)
        ||| bytes[0] < 0x20 && fp_canonical(coordinate(bytes, 0)) && fp_canonical(
            coordinate(bytes, 1),
        )
    }
}

/// Whether the host accepts the 192 bytes as the uncompressed encoding of
/// a G2 point: the point at infinity (first byte `0x40`, all else zero), or
/// no flag set and all four coordinates below `p`.
pub open spec fn g2_encoding_ok(bytes: Seq<u8>) -> bool {
    &&& bytes.len() == 192
    &&& {
        ||| bytes[0] == 0x40 && rest_is_zero(bytes)
        ||| bytes[0] < 0x20 && fp_canonical(coordinate(bytes, 0)) && fp_canonical(
            coordinate(bytes, 1),
        ) && fp_canonical(coordinate(bytes, 2)) && fp_canonical(coordinate(bytes, 3))
    }
}

/// The order `r` of the BLS12-381 scalar field, big-endian.
pub const ORDER_BE: [u8; 32] = [
    0x73, 0xed, 0xa7, 0x53, 0x29, 0x9d, 0x7d, 0x48, 0x33, 0x39, 0xd8, 0x08, 0x09, 0xa1, 0xd8, 0x05,
    0x53, 0xbd, 0xa4, 0x02, 0xff, 0xfe, 0x5b, 0xfe, 0xff, 0xff, 0xff, 0xff, 0x00, 0x00, 0x00, 0x01,
];

/// The order `r` of the scalar field.
pub open spec fn scalar_order() -> nat {
    be_value(ORDER_BE@)
}

/// The scalar that a 32-byte big-endian string stands for: its value
/// reduced modulo `r`.
pub open spec fn scalar_value(bytes: Seq<u8>) -> nat {
    be_value(bytes) % scalar_order()
}

/// The modulus `p` of the base field.
pub open spec fn field_modulus() -> int {
    be_value(FP_MODULUS_BE@) as int
}

/// The `k`-th coordinate of an encoding, as a number.
pub open spec fn coordinate_value(bytes: Seq<u8>, k: int) -> int {
    be_value(coordinate(bytes, k)) as int
}

/// Whether a well-formed G1 encoding stands for a point of the curve
/// `y^2 = x^3 + 4` over the base field: the point at infinity always is.
pub open spec fn g1_on_curve(bytes: Seq<u8>) -> bool {
    if bytes[0] == 0x40 {
        true
    } else {
        let x = coordinate_value(bytes, 0);
        let y = coordinate_value(bytes, 1);
        (y * y - (x * x * x + 4)) % field_modulus() == 0
    }
}

/// Whether a well-formed G2 encoding stands for a point of the twist
/// `y^2 = x^3 + 4(1 + u)` over `Fp2 = Fp[u] / (u^2 + 1)`, where the
/// coordinates are encoded as `x1 || x0 || y1 || y0` for `x = x0 + x1 u` and
/// `y = y0 + y1 u`: the point at infinity always is.
pub open spec fn g2_on_curve(bytes: Seq<u8>) -> bool {
    if bytes[0] == 0x40 {
        true
    } else {
        let x1 = coordinate_value(bytes, 0);
        let x0 = coordinate_value(bytes, 1);
        let y1 = coordinate_value(bytes, 2);
        let y0 = coordinate_value(bytes, 3);
        // y^2 = (y0^2 - y1^2) + 2 y0 y1 u
        // x^3 = (x0^3 - 3 x0 x1^2) + (3 x0^2 x1 - x1^3) u
        &&& (y0 * y0 - y1 * y1 - (x0 * x0 * x0 - 3 * x0 * x1 * x1 + 4)) % field_modulus() == 0
        &&& (2 * y0 * y1 - (3 * x0 * x0 * x1 - x1 * x1 * x1 + 4)) % field_modulus() == 0
    }
}

/// The value of a non-empty encoding splits at its first byte.
pub proof fn lemma_be_value_front(bytes: Seq<u8>)
    requires
        bytes.len() > 0,
    ensures
        be_value(bytes) == bytes[0] as nat * pow256((bytes.len() - 1) as nat) + be_value(
            bytes.drop_first(),
        ),
    decreases bytes.len(),
{
    if bytes.len() == 1 {
        assert(bytes.drop_last().len() == 0);
        assert(bytes.drop_first().len() == 0);
        assert(be_value(bytes.drop_last()) == 0);
        assert(be_value(bytes.drop_first()) == 0);
        assert(pow256(0) == 1);
        assert(bytes.last() == bytes[0]);
        let head = bytes[0] as nat;
        assert(head * pow256(0) == head) by (nonlinear_arith)
            requires
                pow256(0) == 1,
        ;
    } else {
        let front = bytes.drop_last();
        let rest = bytes.drop_first();
        lemma_be_value_front(front);
        assert(front.drop_first() =~= rest.drop_last());
        assert(rest.last() == bytes.last());
        assert(front[0] == bytes[0]);
        let p = pow256((front.len() - 1) as nat);
        assert(pow256((bytes.len() - 1) as nat) == 256 * p);
        let head = bytes[0] as nat;
        let middle = be_value(front.drop_first());
        let last = bytes.last() as nat;
        assert(be_value(bytes) == be_value(front) * 256 + last);
        assert(be_value(front) == head * p + middle);
        assert(be_value(rest) == middle * 256 + last);
        assert((head * p + middle) * 256 == head * (256 * p) + middle * 256) by (nonlinear_arith);
        assert(head * pow256((bytes.len() - 1) as nat) == head * (256 * p));
    }
}

/// An encoding of `n` bytes stands for a number below `256^n`.
pub proof fn lemma_be_value_bound(bytes: Seq<u8>)
    ensures
        be_value(bytes) < pow256(bytes.len()),
    decreases bytes.len(),
{
    if bytes.len() > 0 {
        lemma_be_value_bound(bytes.drop_last());
        let v = be_value(bytes.drop_last());
        let p = pow256(bytes.drop_last().len());
        let last = bytes.last() as nat;
        assert(v * 256 + last < 256 * p) by (nonlinear_arith)
            requires
                v < p,
                last < 256,
        ;
    }
}

/// Two encodings of equal length that agree before position `i` and have a
/// smaller byte at `i` in `a` stand for numbers in the same order.
pub proof fn lemma_be_value_lex_less(a: Seq<u8>, b: Seq<u8>, i: int)
    requires
        a.len() == b.len(),
        0 <= i < a.len(),
        forall|j: int| 0 <= j < i ==> a[j] == b[j],
        a[i] < b[i],
    ensures
        be_value(a) < be_value(b),
    decreases i,
{
    lemma_be_value_front(a);
    lemma_be_value_front(b);
    let p = pow256((a.len() - 1) as nat);
    if i == 0 {
        lemma_be_value_bound(a.drop_first());
        let ra = be_value(a.drop_first());
        let rb = be_value(b.drop_first());
        let ha = a[0] as nat;
        let hb = b[0] as nat;
        assert(ha * p + ra < hb * p + rb) by (nonlinear_arith)
            requires
                ha < hb,
                ra < p,
        ;
    } else {
        assert forall|j: int| 0 <= j < i - 1 implies a.drop_first()[j] == b.drop_first()[j] by {
            assert(a[j + 1] == b[j + 1]);
        }
        lemma_be_value_lex_less(a.drop_first(), b.drop_first(), i - 1);
    }
}

/// Whether the 48 bytes of `bytes` from `start` encode a number below `p`,
/// decided by comparing bytes from the most significant one.
pub fn fp_is_canonical(bytes: &[u8], start: usize) -> (canonical: bool)
    requires
        start + 48 <= bytes@.len(),
    ensures
        canonical == fp_canonical(bytes@.subrange(start as int, start + 48)),
{
    let ghost field = bytes@.subrange(start as int, start + 48);
    let n = bytes.len();
    let mut i: usize = 0;
    while i < 48
        invariant
            n == bytes@.len(),
            start + 48 <= bytes@.len(),
            field == bytes@.subrange(start as int, start + 48),
            i <= 48,
            forall|j: int| 0 <= j < i ==> field[j] == FP_MODULUS_BE@[j],
        decreases 48 - i,
    {
        let byte = bytes[start + i];
        let bound = FP_MODULUS_BE[i];
        if byte < bound {
            proof {
                lemma_be_value_lex_less(field, FP_MODULUS_BE@, i as int);
            }
            return true;
        }
        if byte > bound {
            proof {
                lemma_be_value_lex_less(FP_MODULUS_BE@, field, i as int);
            }
            return false;
        }
        i = i + 1;
    }
    assert(field =~= FP_MODULUS_BE@);
    false
}

/// Whether every byte of `bytes` after the first is zero.
pub fn rest_all_zero(bytes: &[u8]) -> (zero: bool)
    ensures
        zero == rest_is_zero(bytes@),
{
    let mut i: usize = 1;
    while i < bytes.len()
        invariant
            1 <= i,
            forall|j: int| 1 <= j < i && j < bytes@.len() ==> bytes@[j] == 0,
        decreases bytes@.len() - i,
    {
        if bytes[i] != 0 {
            return false;
        }
        i = i + 1;
    }
    true
}

/// Whether the host accepts the 96 bytes as a G1 point encoding.
pub fn g1_encoding_check(bytes: &[u8; 96]) -> (ok: bool)
    ensures
        ok == g1_encoding_ok(bytes@),
{
    let slice = bytes.as_slice();
    if bytes[0] == 0x40 {
        return rest_all_zero(slice);
    }
    if bytes[0] >= 0x20 {
        return false;
    }
    fp_is_canonical(slice, 0) && fp_is_canonical(slice, 48)
}

/// Whether the host accepts the 192 bytes as a G2 point encoding.
pub fn g2_encoding_check(bytes: &[u8; 192]) -> (ok: bool)
    ensures
        ok == g2_encoding_ok(bytes@),
{
    let slice = bytes.as_slice();
    if bytes[0] == 0x40 {
        return rest_all_zero(slice);
    }
    if bytes[0] >= 0x20 {
        return false;
    }
    fp_is_canonical(slice, 0) && fp_is_canonical(slice, 48) && fp_is_canonical(slice, 96)
        && fp_is_canonical(slice, 144)
}

/// `FP_MODULUS_BE` encodes the modulus of the BLS12-381 base field,
/// `p = 0x1a0111ea397fe69a4b1ba7b6434bacd764774b84f38512bf6730d2a0f6b0f6241eabfffeb153ffffb9feffffffffaaab`.
pub proof fn law_base_field_modulus()
    ensures
        be_value(FP_MODULUS_BE@)
            == 0x1a0111ea397fe69a4b1ba7b6434bacd764774b84f38512bf6730d2a0f6b0f6241eabfffeb153ffffb9feffffffffaaabnat,
{
    assert(FP_MODULUS_BE@ =~= seq![
        0x1au8, 0x01, 0x11, 0xea, 0x39, 0x7f, 0xe6, 0x9a, 0x4b, 0x1b, 0xa7, 0xb6, 0x43, 0x4b, 0xac,
        0xd7, 0x64, 0x77, 0x4b, 0x84, 0xf3, 0x85, 0x12, 0xbf, 0x67, 0x30, 0xd2, 0xa0, 0xf6, 0xb0,
        0xf6, 0x24, 0x1e, 0xab, 0xff, 0xfe, 0xb1, 0x53, 0xff, 0xff, 0xb9, 0xfe, 0xff, 0xff, 0xff,
        0xff, 0xaa, 0xab,
    ]);
    reveal_with_fuel(be_value, 49);
}

/// `ORDER_BE` encodes the order of the BLS12-381 scalar field,
/// `r = 0x73eda753299d7d483339d80809a1d80553bda402fffe5bfeffffffff00000001`.
pub proof fn law_scalar_order()
    ensures
        scalar_order() == 0x73eda753299d7d483339d80809a1d80553bda402fffe5bfeffffffff00000001nat,
{
    assert(ORDER_BE@ =~= seq![
        0x73u8, 0xed, 0xa7, 0x53, 0x29, 0x9d, 0x7d, 0x48, 0x33, 0x39, 0xd8, 0x08, 0x09, 0xa1, 0xd8,
        0x05, 0x53, 0xbd, 0xa4, 0x02, 0xff, 0xfe, 0x5b, 0xfe, 0xff, 0xff, 0xff, 0xff, 0x00, 0x00,
        0x00, 0x01,
    ]);
    reveal_with_fuel(be_value, 33);
}

} // verus!
