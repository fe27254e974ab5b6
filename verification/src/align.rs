//! Alignment arithmetic shared by every placement path.

use vstd::prelude::*;
use vstd::arithmetic::div_mod::{
    lemma_fundamental_div_mod, lemma_fundamental_div_mod_converse_mod, lemma_mod_bound,
    lemma_mod_mod, lemma_mod_multiples_basic,
};
use vstd::arithmetic::mul::lemma_mul_is_commutative;
use crate::constants::{lemma_word_sizes, WORD_ALIGN};

verus! {

/// `n` is a power of two (1, 2, 4, ...).
pub open spec fn is_pow2(n: int) -> bool
    decreases n,
{
    if n <= 0 {
        false
    } else if n == 1 {
        true
    } else {
        n % 2 == 0 && is_pow2(n / 2)
    }
}

/// The largest multiple of `align` that is not above `value`.
pub open spec fn round_down(value: int, align: int) -> int {
    value - value % align
}

/// The smallest multiple of `align` that is not below `value`.
pub open spec fn round_up(value: int, align: int) -> int {
    round_down(value + align - 1, align)
}

/// `value + align - 1`, saturated at `usize::MAX`.
pub open spec fn saturating_bump(value: int, align: int) -> int {
    if value + align - 1 > usize::MAX {
        usize::MAX as int
    } else {
        value + align - 1
    }
}

/// What `align_up` computes: `value` rounded up to `align`, saturating at
/// the last multiple of `align` that fits in `usize`.
pub open spec fn align_up_spec(value: int, align: int) -> int {
    round_down(saturating_bump(value, align), align)
}

/// Facts about rounding down to a multiple of `a`.
pub proof fn lemma_round_down(x: int, a: int)
    requires
        x >= 0,
        a > 0,
    ensures
        0 <= x % a < a,
        round_down(x, a) % a == 0,
        x - a < round_down(x, a) <= x,
        round_down(x, a) >= 0,
{
    lemma_mod_bound(x, a);
    lemma_fundamental_div_mod(x, a);
    lemma_mul_is_commutative(a, x / a);
    lemma_mod_multiples_basic(x / a, a);
}

/// Rounding up gives the least multiple of `a` at or above `x`.
pub proof fn lemma_round_up(x: int, a: int)
    requires
        x >= 0,
        a > 0,
    ensures
        round_up(x, a) % a == 0,
        x <= round_up(x, a) < x + a,
        x % a == 0 ==> round_up(x, a) == x,
{
    lemma_round_down(x + a - 1, a);
    if x % a == 0 {
        lemma_fundamental_div_mod(x, a);
        lemma_mul_is_commutative(a, x / a);
        lemma_fundamental_div_mod_converse_mod(x + a - 1, a, x / a, a - 1);
    }
}

/// A power of two that is at least 8 is a multiple of 8; a smaller one divides 8.
pub proof fn lemma_pow2_and_eight(a: int)
    requires
        is_pow2(a),
    ensures
        a >= 8 ==> a % 8 == 0,
        a < 8 ==> (a == 1 || a == 2 || a == 4),
    decreases a,
{
    if a > 1 {
        lemma_pow2_and_eight(a / 2);
    }
}

/// `2^k` is a power of two.
proof fn lemma_pow2_of_exponent(k: nat)
    ensures
        is_pow2(vstd::arithmetic::power2::pow2(k) as int),
    decreases k,
{
    vstd::arithmetic::power2::lemma2_to64();
    if k > 0 {
        lemma_pow2_of_exponent((k - 1) as nat);
        vstd::arithmetic::power2::lemma_pow2_unfold(k);
        let x = vstd::arithmetic::power2::pow2((k - 1) as nat) as int;
        assert((2 * x) / 2 == x);
        assert((2 * x) % 2 == 0);
    }
}

/// A power of two below twice another power of two is at most it.
proof fn lemma_pow2_below_double(a: int, m: int)
    requires
        is_pow2(a),
        is_pow2(m),
        a < 2 * m,
    ensures
        a <= m,
    decreases a,
{
    if a > 1 && m > 1 {
        lemma_pow2_below_double(a / 2, m / 2);
    }
}

/// A power of two that fits in `usize` is at most `isize::MAX + 1`, so
/// adding `align - 1` to an address up to `isize::MAX` cannot overflow.
pub proof fn lemma_pow2_fits_half(a: int)
    requires
        is_pow2(a),
        a <= usize::MAX,
    ensures
        a <= isize::MAX + 1,
{
    vstd::arithmetic::power2::lemma2_to64();
    if usize::MAX == 0xffff_ffff {
        lemma_pow2_of_exponent(31);
        lemma_pow2_below_double(a, 0x8000_0000);
    } else {
        vstd::arithmetic::power2::lemma2_to64_rest();
        lemma_pow2_of_exponent(63);
        lemma_pow2_below_double(a, 0x8000_0000_0000_0000);
    }
}

/// A power of two at least a word long is a multiple of the word; a shorter
/// one divides the word.
pub proof fn lemma_pow2_and_word(a: int)
    requires
        is_pow2(a),
    ensures
        a >= WORD_ALIGN ==> a % (WORD_ALIGN as int) == 0,
        a < WORD_ALIGN ==> (WORD_ALIGN as int) % a == 0 && (a == 1 || a == 2 || a == 4),
{
    lemma_word_sizes();
    lemma_pow2_and_eight(a);
    if a >= 8 {
        lemma_fundamental_div_mod(a, 8);
        let m = a / 8;
        assert(a == 4 * (2 * m));
        lemma_mod_multiples_basic(2 * m, 4);
    }
}

/// A power of two is `2^n` for some exponent `n`.
pub proof fn lemma_pow2_exponent(a: int) -> (n: nat)
    requires
        is_pow2(a),
    ensures
        vstd::arithmetic::power2::pow2(n) == a,
    decreases a,
{
    vstd::arithmetic::power2::lemma2_to64();
    if a == 1 {
        0
    } else {
        let m = lemma_pow2_exponent(a / 2);
        vstd::arithmetic::power2::lemma_pow2_unfold(m + 1);
        m + 1
    }
}

/// Clearing the low bits below a power of two rounds down to a multiple of
/// it.
pub proof fn lemma_mask_is_round_down(x: usize, a: usize)
    requires
        is_pow2(a as int),
    ensures
        x & !((a - 1) as usize) == round_down(x as int, a as int),
{
    let n = lemma_pow2_exponent(a as int);
    vstd::arithmetic::power2::lemma2_to64();
    vstd::arithmetic::power2::lemma2_to64_rest();
    if n >= usize::BITS {
        vstd::arithmetic::power2::lemma_pow2_strictly_increases(usize::BITS as nat, n);
        assert(false);
    }
    vstd::bits::lemma_usize_low_bits_mask_is_mod(x, n);
    let m = (a - 1) as usize;
    assert(m == vstd::bits::low_bits_mask(n) as usize);
    assert(x & !m == x - (x & m)) by (bit_vector);
}

/// Padding needed to align a word-aligned address: none for alignments up
/// to a word, at most `align - WORD_ALIGN` beyond.
pub proof fn lemma_word_aligned_padding(base: int, align: int)
    requires
        base >= 0,
        base % (WORD_ALIGN as int) == 0,
        is_pow2(align),
    ensures
        round_up(base, align) - base <= (if align <= WORD_ALIGN { 0 } else { align - WORD_ALIGN }),
        round_up(base, align) % align == 0,
        base <= round_up(base, align),
{
    let w = WORD_ALIGN as int;
    lemma_word_sizes();
    lemma_pow2_and_word(align);
    lemma_round_up(base, align);
    if align <= w {
        if align < w {
            let b = w / align;
            lemma_fundamental_div_mod(w, align);
            assert(align * b == w);
            lemma_mod_mod(base, align, b);
        } else {
            assert(align == w);
        }
        assert(base % align == 0);
    } else {
        let q = base / align;
        let r = base % align;
        lemma_fundamental_div_mod(base, align);
        lemma_mod_bound(base, align);
        lemma_fundamental_div_mod(align, w);
        let m = align / w;
        assert(w * m == align);
        assert(m > 0);
        lemma_mod_mod(base, w, m);
        assert(r % w == 0);
        if r != 0 {
            assert(r >= w) by {
                lemma_fundamental_div_mod(r, w);
            }
            assert(base + align - 1 == (q + 1) * align + (r - 1)) by (nonlinear_arith)
                requires
                    base == align * q + r,
            ;
            lemma_fundamental_div_mod_converse_mod(base + align - 1, align, q + 1, r - 1);
        }
    }
}

/// Bump `value` up to the next multiple of `align`. `align` must be a
/// power of two.
///
/// Saturates: when `value + (align - 1)` would not fit in `usize`, the
/// result is the largest multiple of `align` that does.
pub fn align_up(value: usize, align: usize) -> (r: usize)
    requires
        is_pow2(align as int),
    ensures
        r == align_up_spec(value as int, align as int),
        r % align == 0,
        value + align - 1 <= usize::MAX ==> r == round_up(value as int, align as int),
        value + align - 1 <= usize::MAX ==> value <= r && r - value < align,
        value + align - 1 > usize::MAX ==> r == round_down(usize::MAX as int, align as int),
        value + align - 1 > usize::MAX ==> r == usize::MAX & !((align - 1) as usize),
{
    proof {
        lemma_mask_is_round_down(usize::MAX, align);
        lemma_round_down(saturating_bump(value as int, align as int), align as int);
        if value + align - 1 <= usize::MAX {
            lemma_round_up(value as int, align as int);
        }
    }
    let s = value.saturating_add(align - 1);
    s - s % align
}

/// Byte offset from `value` to the next `align`-aligned address, or
/// `None` if that address would not fit in `usize`. `align` must be a
/// power of two.
pub fn align_offset(value: usize, align: usize) -> (r: Option<usize>)
    requires
        is_pow2(align as int),
    ensures
        r is None <==> value + align - 1 > usize::MAX,
        r is Some ==> r->0 == round_up(value as int, align as int) - value,
{
    match value.checked_add(align - 1) {
        None => None,
        Some(s) => {
            proof {
                lemma_round_up(value as int, align as int);
            }
            Some((s - s % align) - value)
        },
    }
}

/// Offset of a `size`-byte payload aligned to `align` inside a chunk
/// whose payload starts at `data_addr`, given that the request fits in
/// the `cap - reserved_tail` bytes ahead of the reserved tail.
pub fn aligned_payload_offset(
    data_addr: usize,
    align: usize,
    size: usize,
    cap: usize,
    reserved_tail: usize,
) -> (r: usize)
    requires
        is_pow2(align as int),
        data_addr + align - 1 <= usize::MAX,
        round_up(data_addr as int, align as int) - data_addr + size
            <= cap - reserved_tail,
    ensures
        r == round_up(data_addr as int, align as int) - data_addr,
        r + size <= cap - reserved_tail,
{
    let s = data_addr + (align - 1);
    (s - s % align) - data_addr
}

/// `isize::MAX` minus the worst-case padding of `align`, floored at 0.
pub open spec fn isize_limit_for(align: int) -> int {
    let padding = if align >= 1 { align - 1 } else { 0 };
    if padding > isize::MAX { 0 } else { isize::MAX - padding }
}

/// Overflow guard for slice-layout arithmetic: `Err` when `total` bytes
/// plus worst-case alignment padding would exceed `isize::MAX`.
pub fn check_isize_overflow(total: usize, align: usize) -> (r: Result<(), crate::error::AllocError>)
    ensures
        r is Err <==> total > isize_limit_for(align as int),
        r is Err ==> r->Err_0 == crate::error::AllocError::CapacityOverflow,
{
    let padding = align.saturating_sub(1);
    let limit = (isize::MAX as usize).saturating_sub(padding);
    if total > limit {
        Err(crate::error::AllocError::CapacityOverflow)
    } else {
        Ok(())
    }
}

/// Outcome of [`try_bump_fit`]: whether the request fits, and where.
#[derive(Clone, Copy, Debug, PartialEq, Eq)]
pub struct BumpFit {
    /// `true` iff the requested allocation fits.
    pub fits: bool,
    /// Aligned start of the new allocation (meaningful only when `fits`).
    pub aligned: usize,
    /// One byte past the end of the new allocation: the new bump cursor.
    pub end: usize,
    /// New back-stack limit (`drop_back - entry_size`).
    pub new_drop_back: usize,
}

/// The fit condition of the bump allocator: the aligned allocation plus
/// its back-stack entry lies below the back-stack limit.
pub open spec fn bump_fits(data: int, drop_back: int, align: int, bumped: int, entry_size: int) -> bool {
    round_up(data, align) + bumped + entry_size <= drop_back
}

/// Single-branch bump-fit check used by every fast path.
///
/// The request fits when `bumped` bytes aligned to `align`, starting at
/// or after `data_addr`, plus `entry_size` bytes reserved at the top of
/// the back-stack, all fit below `drop_back_addr`.
pub fn try_bump_fit(
    data_addr: usize,
    drop_back_addr: usize,
    align: usize,
    bumped: usize,
    entry_size: usize,
) -> (r: BumpFit)
    requires
        is_pow2(align as int),
        data_addr > 0,
        data_addr <= isize::MAX,
        bumped >= 1,
    ensures
        r.fits <==> bump_fits(data_addr as int, drop_back_addr as int, align as int, bumped as int, entry_size as int),
        r.fits ==> {
            &&& r.aligned == round_up(data_addr as int, align as int)
            &&& r.aligned == ((data_addr + (align - 1)) as usize) & !((align - 1) as usize)
            &&& r.aligned % align == 0
            &&& data_addr <= r.aligned < data_addr + align
            &&& r.end == r.aligned + bumped
            &&& r.new_drop_back == drop_back_addr - entry_size
            &&& r.end <= r.new_drop_back
        },
        !r.fits ==> r.aligned == 1 && r.end == 1 && r.new_drop_back == 1,
{
    proof {
        lemma_round_up(data_addr as int, align as int);
        lemma_pow2_fits_half(align as int);
        lemma_mask_is_round_down((data_addr + (align - 1)) as usize, align);
    }
    let s = data_addr + (align - 1);
    let aligned = s - s % align;
    let no_fit = BumpFit { fits: false, aligned: 1, end: 1, new_drop_back: 1 };
    match aligned.checked_add(bumped) {
        None => no_fit,
        Some(end) => match end.checked_add(entry_size) {
            None => no_fit,
            Some(limit) => {
                if limit > drop_back_addr {
                    no_fit
                } else {
                    BumpFit { fits: true, aligned, end, new_drop_back: drop_back_addr - entry_size }
                }
            },
        },
    }
}

/// Rounding up is idempotent: an address that is already aligned is left
/// where it is, and aligning twice is the same as aligning once.
pub proof fn law_align_up_idempotent(value: usize, align: usize)
    requires
        is_pow2(align as int),
    ensures
        value + align - 1 <= usize::MAX ==> {
            let r = align_up_spec(value as int, align as int);
            &&& r % align as int == 0
            &&& value <= r < value + align
            &&& align_up_spec(r, align as int) == r
        },
        value + align - 1 > usize::MAX ==> align_up_spec(value as int, align as int) == (usize::MAX & !((align - 1) as usize)),
{
    let a = align as int;
    lemma_mask_is_round_down(usize::MAX, align);
    if value + align - 1 <= usize::MAX {
        lemma_round_up(value as int, a);
        let r = round_up(value as int, a);
        lemma_round_down(saturating_bump(r, a), a);
        if r + a - 1 <= usize::MAX {
            lemma_round_up(r, a);
        } else {
            let d = round_down(usize::MAX as int, a);
            lemma_round_down(usize::MAX as int, a);
            lemma_fundamental_div_mod(r, a);
            lemma_fundamental_div_mod(d, a);
            let q1 = r / a;
            let q2 = d / a;
            assert(q1 == q2) by (nonlinear_arith)
                requires
                    r == a * q1,
                    d == a * q2,
                    r - a < d,
                    d - a < r,
                    a > 0,
            ;
        }
    }
}

/// The offset returned by `align_offset` lands on an aligned address and
/// is smaller than the alignment.
pub proof fn law_align_offset_lands_aligned(value: usize, align: usize)
    requires
        is_pow2(align as int),
        value + align - 1 <= usize::MAX,
    ensures
        (value + (round_up(value as int, align as int) - value)) % (align as int) == 0,
        0 <= round_up(value as int, align as int) - value < align,
{
    lemma_round_up(value as int, align as int);
}

/// The start of the `CHUNK_ALIGN` tile holding `addr`: how a smart pointer
/// recovers its chunk's header from its value's address.
pub fn chunk_base_of(addr: usize) -> (r: usize)
    ensures
        r == round_down(addr as int, crate::constants::CHUNK_ALIGN as int),
{
    assert(addr & !0xFFFFusize == addr - addr % 0x10000) by (bit_vector);
    addr & !(crate::constants::CHUNK_ALIGN - 1)
}

} // verus!
