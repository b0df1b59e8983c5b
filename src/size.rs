use vstd::arithmetic::power2::pow2;
use vstd::bits::low_bits_mask;
use vstd::prelude::*;

verus! {

/// An alignment is a power of two, `2^k`, with an exponent below the word width.
pub open spec fn valid_alignment(align: usize) -> bool {
    exists|k: nat| k < usize::BITS && align == pow2(k)
}

/// Rounding `size` up to `align` stays within the machine word.
pub open spec fn fits_word(size: usize, align: usize) -> bool {
    size as int + align as int - 1 <= usize::MAX as int
}

/// The smallest multiple of `align` that is at least `size`.
pub open spec fn adjusted_size(size: nat, align: nat) -> nat
    recommends
        align > 0,
{
    if size % align == 0 {
        size
    } else {
        (size + (align - size % align)) as nat
    }
}

/// Clearing the bits of a mask: what is cleared is the masked part, and the
/// result has none of the mask's bits.
proof fn lemma_clear_mask(x: usize, m: usize)
    ensures
        (x & !m) & m == 0,
        (x & !m) <= x,
        x - (x & !m) == x & m,
        x & m <= m,
{
    assert((x & !m) & m == 0 && (x & !m) <= x && (x - (x & !m)) as usize == x & m && x & m <= m)
        by (bit_vector);
}

/// The one multiple of `align` in `[size, size + align)` is the adjusted size.
proof fn lemma_unique_multiple(size: nat, align: nat, r: nat)
    requires
        align > 0,
        r % align == 0,
        size <= r < size + align,
    ensures
        r == adjusted_size(size, align),
{
    let i = r / align;
    let j = size / align;
    let q = size % align;
    vstd::arithmetic::div_mod::lemma_fundamental_div_mod(r as int, align as int);
    vstd::arithmetic::div_mod::lemma_fundamental_div_mod(size as int, align as int);
    if q == 0 {
        assert(i == j) by (nonlinear_arith)
            requires
                align > 0,
                align * j <= align * i < align * j + align,
        ;
        assert(r == size);
    } else {
        assert(i == j + 1) by (nonlinear_arith)
            requires
                align > 0,
                0 < q < align,
                align * j + q <= align * i < align * j + q + align,
        ;
        assert(align * i == align * j + align) by (nonlinear_arith)
            requires
                i == j + 1,
        ;
        assert(r == size + (align - q));
    }
}

/// The size to ask the host for so that its chunk alignment meets `align`:
/// `size` rounded up to the next multiple of `align`.
pub fn calculate_size(size: usize, align: usize) -> (r: usize)
    requires
        valid_alignment(align),
        fits_word(size, align),
    ensures
        r as nat == adjusted_size(size as nat, align as nat),
{
    let ghost k = choose|k: nat| k < usize::BITS && align == pow2(k);
    proof {
        vstd::arithmetic::power2::lemma_pow2_pos(k);
    }
    let mask: usize = align - 1;
    let rounded: usize = (size + mask) & !mask;
    proof {
        vstd::bits::lemma_usize_pow2_no_overflow(k);
        vstd::bits::lemma_usize_low_bits_mask_is_mod(rounded, k);
        vstd::bits::lemma_usize_low_bits_mask_is_mod((size + mask) as usize, k);
        assert(low_bits_mask(k) == mask);
        lemma_clear_mask((size + mask) as usize, mask);
        lemma_unique_multiple(size as nat, align as nat, rounded as nat);
    }
    rounded
}

/// Every valid alignment is positive.
pub proof fn lemma_alignment_positive(align: usize)
    requires
        valid_alignment(align),
    ensures
        align > 0,
{
    let k = choose|k: nat| k < usize::BITS && align == pow2(k);
    vstd::arithmetic::power2::lemma_pow2_pos(k);
}

/// The adjusted size is a multiple of the alignment, no smaller than the
/// request, and less than one alignment above it.
pub proof fn lemma_adjusted_size_bounds(size: nat, align: usize)
    requires
        valid_alignment(align),
    ensures
        adjusted_size(size, align as nat) % (align as nat) == 0,
        size <= adjusted_size(size, align as nat) < size + align,
{
    lemma_alignment_positive(align);
    let a = align as nat;
    let q = size % a;
    if q != 0 {
        vstd::arithmetic::div_mod::lemma_fundamental_div_mod(size as int, a as int);
        let j = size / a;
        assert(size + (a - q) == (j + 1) * a) by (nonlinear_arith)
            requires
                size == a * j + q,
        ;
        vstd::arithmetic::div_mod::lemma_mod_multiples_basic((j + 1) as int, a as int);
    }
}

/// An alignment of one leaves every size as it is.
pub proof fn lemma_adjusted_size_align_one(size: nat)
    ensures
        adjusted_size(size, 1) == size,
{
}

/// A request of zero bytes stays zero under every alignment.
pub proof fn lemma_adjusted_size_zero(align: usize)
    requires
        valid_alignment(align),
    ensures
        adjusted_size(0, align as nat) == 0,
{
    lemma_alignment_positive(align);
}

/// A size that is already a multiple of the alignment is left unchanged, so
/// adjusting twice is adjusting once.
pub proof fn lemma_adjusted_size_idempotent(size: nat, align: usize)
    requires
        valid_alignment(align),
    ensures
        size % (align as nat) == 0 ==> adjusted_size(size, align as nat) == size,
        adjusted_size(adjusted_size(size, align as nat), align as nat) == adjusted_size(
            size,
            align as nat,
        ),
{
    lemma_adjusted_size_bounds(size, align);
}

} // verus!
