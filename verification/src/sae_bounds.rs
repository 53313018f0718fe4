//! Address-range and entropy helpers of the SAE bignum/group-19 adapter.
//!
//! The adapter hands C callers opaque objects; before an operation writes an
//! output object it checks, by address arithmetic alone, that the output and
//! every input either are the same object or do not overlap at all.
use vstd::prelude::*;

verus! {

/// The half-open range `[address, address + length)`, when its end fits in `usize`.
pub open spec fn spec_checked_range(address: usize, length: usize) -> Option<(usize, usize)> {
    if address + length <= usize::MAX {
        Some((address, (address + length) as usize))
    } else {
        None
    }
}

/// Whether two ranges overlap; `None` when either range wraps the address space.
pub open spec fn spec_ranges_overlap(a: usize, a_len: usize, b: usize, b_len: usize) -> Option<bool> {
    if a + a_len <= usize::MAX && b + b_len <= usize::MAX {
        Some(a < b + b_len && b < a + a_len)
    } else {
        None
    }
}

/// Two objects may be used together when they are the same object or are disjoint.
pub open spec fn spec_alias_is_valid(a: usize, a_len: usize, b: usize, b_len: usize) -> bool {
    a == b || spec_ranges_overlap(a, a_len, b, b_len) == Some(false)
}

/// Range `[address, address + length)`, or `None` if the end overflows.
pub fn checked_range(address: usize, length: usize) -> (r: Option<(usize, usize)>)
    ensures
        r == spec_checked_range(address, length),
{
    match address.checked_add(length) {
        Some(end) => Some((address, end)),
        None => None,
    }
}

/// Whether `[a, a + a_len)` and `[b, b + b_len)` overlap; `None` on wraparound.
pub fn ranges_overlap(a: usize, a_len: usize, b: usize, b_len: usize) -> (r: Option<bool>)
    ensures
        r == spec_ranges_overlap(a, a_len, b, b_len),
{
    let (a_start, a_end) = match checked_range(a, a_len) {
        Some(range) => range,
        None => return None,
    };
    let (b_start, b_end) = match checked_range(b, b_len) {
        Some(range) => range,
        None => return None,
    };
    Some(a_start < b_end && b_start < a_end)
}

/// Exact aliasing or complete disjointness; partial overlap and wraparound are rejected.
pub fn object_alias_is_valid(a: usize, a_len: usize, b: usize, b_len: usize) -> (ok: bool)
    ensures
        ok == spec_alias_is_valid(a, a_len, b, b_len),
{
    if a == b {
        return true;
    }
    match ranges_overlap(a, a_len, b, b_len) {
        Some(overlap) => !overlap,
        None => false,
    }
}

/// An output object and its inputs (all `len` bytes) are non-null and pairwise
/// either identical or disjoint.
pub open spec fn spec_objects_alias_free(output: usize, inputs: Seq<usize>, len: usize) -> bool {
    &&& output != 0
    &&& forall|i: int| 0 <= i < inputs.len() ==> inputs[i] != 0
    &&& forall|i: int| 0 <= i < inputs.len() ==> spec_alias_is_valid(output, len, #[trigger] inputs[i], len)
    &&& forall|i: int, j: int| 0 <= j < i < inputs.len()
        ==> spec_alias_is_valid(#[trigger] inputs[i], len, #[trigger] inputs[j], len)
}

/// Alias check of a bignum operation: `output` and `inputs` are object
/// addresses, each object `object_len` bytes long.
pub fn bignum_aliases(output: usize, inputs: &[usize], object_len: usize) -> (ok: bool)
    ensures
        ok == spec_objects_alias_free(output, inputs@, object_len),
{
    if output == 0 {
        return false;
    }
    let mut index: usize = 0;
    while index < inputs.len()
        invariant
            index <= inputs.len(),
            output != 0,
            forall|i: int| 0 <= i < index ==> inputs@[i] != 0,
            forall|i: int| 0 <= i < index ==> spec_alias_is_valid(output, object_len, #[trigger] inputs@[i], object_len),
            forall|i: int, j: int| 0 <= j < i < index
                ==> spec_alias_is_valid(#[trigger] inputs@[i], object_len, #[trigger] inputs@[j], object_len),
        decreases inputs.len() - index,
    {
        let input = inputs[index];
        if input == 0 || !object_alias_is_valid(output, object_len, input, object_len) {
            return false;
        }
        let mut other: usize = 0;
        while other < index
            invariant
                other <= index < inputs.len(),
                input == inputs@[index as int],
                forall|j: int| 0 <= j < other
                    ==> spec_alias_is_valid(input, object_len, #[trigger] inputs@[j], object_len),
            decreases index - other,
        {
            if !object_alias_is_valid(input, object_len, inputs[other], object_len) {
                return false;
            }
            other = other + 1;
        }
        index = index + 1;
    }
    true
}

/// Alias check of a point operation: as for bignums, and in addition the
/// output point must be disjoint from the group context object.
pub fn point_aliases(
    context: usize,
    context_len: usize,
    output: usize,
    inputs: &[usize],
    point_len: usize,
) -> (ok: bool)
    ensures
        ok == (spec_ranges_overlap(output, point_len, context, context_len) == Some(false)
            && spec_objects_alias_free(output, inputs@, point_len)),
{
    if output == 0 {
        return false;
    }
    match ranges_overlap(output, point_len, context, context_len) {
        Some(false) => {},
        _ => return false,
    }
    bignum_aliases(output, inputs, point_len)
}

/// Number of significant bits of `v`.
pub open spec fn bit_width(v: nat) -> nat
    decreases v,
{
    if v == 0 {
        0
    } else {
        1 + bit_width(v / 2)
    }
}

/// The number whose lowest `n` bits are set.
pub open spec fn low_ones(n: nat) -> nat
    decreases n,
{
    if n == 0 {
        0
    } else {
        2 * low_ones((n - 1) as nat) + 1
    }
}

proof fn lemma_bit_width_bound(v: nat, n: nat)
    requires
        v < low_ones(n) + 1,
    ensures
        bit_width(v) <= n,
    decreases n,
{
    if v != 0 {
        assert(n != 0);
        lemma_bit_width_bound(v / 2, (n - 1) as nat);
    }
}

/// Mask that keeps exactly the bit width of the modulus' leading byte, used
/// to draw uniformly below the modulus; `None` for a zero leading byte.
pub fn entropy_top_mask(first_modulus_byte: u8) -> (r: Option<u8>)
    ensures
        first_modulus_byte == 0 ==> r is None,
        first_modulus_byte != 0 ==> r == Some(low_ones(bit_width(first_modulus_byte as nat)) as u8),
{
    if first_modulus_byte == 0 {
        return None;
    }
    proof {
        assert(low_ones(8) == 255) by {
            reveal_with_fuel(low_ones, 9);
        }
        lemma_bit_width_bound(first_modulus_byte as nat, 8);
    }
    let mut mask: u8 = 0;
    let mut rest: u8 = first_modulus_byte;
    let ghost mut taken: nat = 0;
    while rest != 0
        invariant
            mask as nat == low_ones(taken),
            taken + bit_width(rest as nat) == bit_width(first_modulus_byte as nat),
            bit_width(first_modulus_byte as nat) <= 8,
            low_ones(8) == 255,
        decreases rest,
    {
        proof {
            lemma_low_ones_monotone(taken + 1, 8);
        }
        mask = mask * 2 + 1;
        rest = rest / 2;
        proof {
            taken = taken + 1;
        }
    }
    Some(mask)
}

proof fn lemma_low_ones_monotone(a: nat, b: nat)
    requires
        a <= b,
    ensures
        low_ones(a) <= low_ones(b),
    decreases b,
{
    if a < b {
        lemma_low_ones_monotone(a, (b - 1) as nat);
    }
}


/// Tag of a live big-number object.
pub const BIGNUM_MAGIC: u32 = 0x424e_3634;
/// Tag of a live curve context.
pub const EC_MAGIC: u32 = 0x4543_3139;
/// Tag of a live point object.
pub const POINT_MAGIC: u32 = 0x5054_3139;
/// Ownership tag: the object owns its value and may be written.
pub const OWNED: u32 = 1;
/// Bytes of a P-256 field element.
pub const P256_ELEMENT_BYTES: usize = 32;
/// Random draws tried before giving up.
pub const MAX_RANDOM_REJECTIONS: usize = 128;

/// Whether an object pointer is non-null and aligned.
pub fn aligned(address: usize, alignment: usize) -> (ok: bool)
    requires
        alignment > 0,
    ensures
        ok == (address != 0 && address % alignment == 0),
{
    address != 0 && address % alignment == 0
}

/// Whether a big-number object may be written: live and owning.
pub fn bignum_writable(magic: u32, ownership: u32) -> (ok: bool)
    ensures
        ok == (magic == BIGNUM_MAGIC && ownership == OWNED),
{
    magic == BIGNUM_MAGIC && ownership == OWNED
}

/// Quadratic character of a field element, from Euler's criterion.
#[derive(Clone, Copy, Debug, PartialEq, Eq, Structural)]
pub enum LegendreSymbol {
    Zero,
    Residue,
    NonResidue,
}

/// The field element -1 modulo the P-256 prime, big-endian.
pub open spec fn p256_minus_one() -> Seq<u8> {
    seq![
        0xffu8, 0xff, 0xff, 0xff, 0x00, 0x00, 0x00, 0x01, 0x00, 0x00, 0x00, 0x00, 0x00, 0x00, 0x00, 0x00,
        0x00, 0x00, 0x00, 0x00, 0xff, 0xff, 0xff, 0xff, 0xff, 0xff, 0xff, 0xff, 0xff, 0xff, 0xff, 0xfe,
    ]
}

/// The field element 1, big-endian.
pub open spec fn p256_one() -> Seq<u8> {
    Seq::new(32, |i: int| if i == 31 { 1u8 } else { 0u8 })
}

/// The symbol that Euler's criterion `v^((p-1)/2)` gives: 0, 1 or -1; any
/// other value is not a valid result.
pub fn p256_legendre_result(value: &[u8; 32]) -> (r: Result<LegendreSymbol, ()>)
    ensures
        value@ == Seq::new(32, |i: int| 0u8) ==> r == Ok::<LegendreSymbol, ()>(LegendreSymbol::Zero),
        value@ == p256_one() ==> r == Ok::<LegendreSymbol, ()>(LegendreSymbol::Residue),
        value@ == p256_minus_one() ==> r == Ok::<LegendreSymbol, ()>(LegendreSymbol::NonResidue),
        value@ != Seq::new(32, |i: int| 0u8) && value@ != p256_one() && value@ != p256_minus_one() ==> r
            == Err::<LegendreSymbol, ()>(()),
{
    let minus_one: [u8; 32] = [
        0xff, 0xff, 0xff, 0xff, 0x00, 0x00, 0x00, 0x01, 0x00, 0x00, 0x00, 0x00, 0x00, 0x00, 0x00, 0x00,
        0x00, 0x00, 0x00, 0x00, 0xff, 0xff, 0xff, 0xff, 0xff, 0xff, 0xff, 0xff, 0xff, 0xff, 0xff, 0xfe,
    ];
    assert(minus_one@ =~= p256_minus_one());
    let mut zero = true;
    let mut one = true;
    let mut neg = true;
    let mut i: usize = 0;
    while i < 32
        invariant
            i <= 32,
            minus_one@ == p256_minus_one(),
            zero == forall|j: int| 0 <= j < i ==> value@[j] == 0,
            one == forall|j: int| 0 <= j < i ==> value@[j] == p256_one()[j],
            neg == forall|j: int| 0 <= j < i ==> value@[j] == minus_one@[j],
        decreases 32 - i,
    {
        let b = value[i];
        if b != 0 {
            zero = false;
        }
        if b != (if i == 31 { 1u8 } else { 0u8 }) {
            one = false;
        }
        if b != minus_one[i] {
            neg = false;
        }
        i += 1;
    }
    proof {
        if zero {
            assert(value@ =~= Seq::new(32, |i: int| 0u8));
        } else {
            let j = choose|j: int| 0 <= j < 32 && value@[j] != 0;
            assert(value@[j] != Seq::new(32, |i: int| 0u8)[j]);
        }
        if one {
            assert(value@ =~= p256_one());
        } else {
            let j = choose|j: int| 0 <= j < 32 && value@[j] != p256_one()[j];
            assert(value@[j] != p256_one()[j]);
        }
        if neg {
            assert(value@ =~= p256_minus_one());
        } else {
            let j = choose|j: int| 0 <= j < 32 && value@[j] != minus_one@[j];
            assert(value@[j] != p256_minus_one()[j]);
        }
        assert(p256_one()[31] != Seq::new(32, |i: int| 0u8)[31]);
        assert(p256_minus_one()[0] != Seq::new(32, |i: int| 0u8)[0]);
        assert(p256_minus_one()[0] != p256_one()[0]);
    }
    if zero {
        Ok(LegendreSymbol::Zero)
    } else if one {
        Ok(LegendreSymbol::Residue)
    } else if neg {
        Ok(LegendreSymbol::NonResidue)
    } else {
        Err(())
    }
}

/// Bytes a big-number export may write: `pad_to` when padding, else the
/// output length capped at the largest number of `max_bytes`.
pub fn bignum_write_capacity(output_len: usize, pad_to: usize, max_bytes: usize) -> (n: usize)
    ensures
        pad_to == 0 ==> n == (if output_len < max_bytes { output_len } else { max_bytes }),
        pad_to != 0 ==> n == pad_to,
{
    if pad_to == 0 {
        if output_len < max_bytes {
            output_len
        } else {
            max_bytes
        }
    } else {
        pad_to
    }
}

/// Whether a big-number export's arguments are acceptable: an output buffer,
/// padding that fits it and the largest number, and an output that does not
/// overlap the object.
pub fn bignum_export_valid(
    output: usize,
    output_len: usize,
    pad_to: usize,
    max_bytes: usize,
    object: usize,
    object_len: usize,
) -> (ok: bool)
    ensures
        ok == (output != 0 && pad_to <= output_len && pad_to <= max_bytes && spec_ranges_overlap(
            output,
            if pad_to == 0 { if output_len < max_bytes { output_len } else { max_bytes } } else { pad_to },
            object,
            object_len,
        ) == Some(false)),
{
    let capacity = bignum_write_capacity(output_len, pad_to, max_bytes);
    output != 0 && pad_to <= output_len && pad_to <= max_bytes && match ranges_overlap(
        output,
        capacity,
        object,
        object_len,
    ) {
        Some(false) => true,
        _ => false,
    }
}

/// Whether the outputs of a point export are acceptable: each present
/// output (non-zero) is apart from the point and the context, and two
/// outputs are apart from each other.
pub fn point_export_valid(
    x: usize,
    y: usize,
    point: usize,
    point_len: usize,
    context: usize,
    context_len: usize,
) -> (ok: bool)
    ensures
        ok == ((x != 0 ==> spec_ranges_overlap(x, 32, point, point_len) == Some(false) && spec_ranges_overlap(
            x,
            32,
            context,
            context_len,
        ) == Some(false)) && (y != 0 ==> spec_ranges_overlap(y, 32, point, point_len) == Some(false)
            && spec_ranges_overlap(y, 32, context, context_len) == Some(false)) && (x != 0 && y != 0
            ==> spec_ranges_overlap(x, 32, y, 32) == Some(false))),
{
    let apart = |r: Option<bool>| -> (b: bool)
        ensures
            b == (r == Some(false)),
        {
            match r {
                Some(false) => true,
                _ => false,
            }
        };
    if x != 0 {
        if !apart(ranges_overlap(x, P256_ELEMENT_BYTES, point, point_len)) || !apart(
            ranges_overlap(x, P256_ELEMENT_BYTES, context, context_len),
        ) {
            return false;
        }
    }
    if y != 0 {
        if !apart(ranges_overlap(y, P256_ELEMENT_BYTES, point, point_len)) || !apart(
            ranges_overlap(y, P256_ELEMENT_BYTES, context, context_len),
        ) {
            return false;
        }
    }
    if x != 0 && y != 0 && !apart(ranges_overlap(x, P256_ELEMENT_BYTES, y, P256_ELEMENT_BYTES)) {
        return false;
    }
    true
}

/// Outcome of drawing a random number below a modulus.
#[derive(Clone, Copy, Debug, PartialEq, Eq, Structural)]
pub enum RandomDraw {
    /// The entropy gave a number below the modulus.
    Accepted,
    /// The entropy gave a number at or above it: draw again.
    Rejected,
    /// The draw failed.
    Failed,
}

/// What to do after attempt `attempt` (from 0) of a bounded random draw.
#[derive(Clone, Copy, Debug, PartialEq, Eq, Structural)]
pub enum RandomStep {
    /// Store the drawn number.
    Store,
    /// Draw again.
    Retry,
    /// Give up with an error.
    Fail,
}

/// Decide a random-draw attempt: a failed entropy fill or draw fails; a
/// rejection retries until [`MAX_RANDOM_REJECTIONS`] attempts are spent.
pub fn random_step(attempt: usize, entropy_ok: bool, draw: RandomDraw) -> (s: RandomStep)
    ensures
        !entropy_ok ==> s == RandomStep::Fail,
        entropy_ok && draw == RandomDraw::Accepted ==> s == RandomStep::Store,
        entropy_ok && draw == RandomDraw::Failed ==> s == RandomStep::Fail,
        entropy_ok && draw == RandomDraw::Rejected ==> s == (if attempt + 1 < MAX_RANDOM_REJECTIONS {
            RandomStep::Retry
        } else {
            RandomStep::Fail
        }),
{
    if !entropy_ok {
        return RandomStep::Fail;
    }
    match draw {
        RandomDraw::Accepted => RandomStep::Store,
        RandomDraw::Failed => RandomStep::Fail,
        RandomDraw::Rejected => {
            if attempt < MAX_RANDOM_REJECTIONS - 1 {
                RandomStep::Retry
            } else {
                RandomStep::Fail
            }
        },
    }
}

/// Mask the first entropy byte to the modulus's bit width.
pub fn mask_entropy(entropy: &mut [u8], top_mask: u8)
    requires
        old(entropy)@.len() > 0,
    ensures
        final(entropy)@ == old(entropy)@.update(0, old(entropy)@[0] & top_mask),
{
    entropy[0] = entropy[0] & top_mask;
}

/// Overwrite a buffer with zeros.
pub fn clear_bytes(bytes: &mut [u8])
    ensures
        final(bytes)@ == Seq::new(old(bytes)@.len(), |i: int| 0u8),
{
    let mut i: usize = 0;
    while i < bytes.len()
        invariant
            i <= bytes@.len(),
            bytes@.len() == old(bytes)@.len(),
            forall|j: int| 0 <= j < i ==> bytes@[j] == 0,
        decreases bytes@.len() - i,
    {
        bytes[i] = 0;
        i += 1;
    }
    assert(bytes@ =~= Seq::new(old(bytes)@.len(), |i: int| 0u8));
}

} // verus!
