//! UTF-16 transcoding used by the arena's string constructors.
//!
//! Code points are modelled as integers: a decoder's output is stated as
//! the sequence of scalar values of the characters it produces.

use vstd::prelude::*;

verus! {

/// A UTF-16 code unit in the high-surrogate range.
pub open spec fn is_high(u: int) -> bool {
    0xD800 <= u <= 0xDBFF
}

/// A UTF-16 code unit in the low-surrogate range.
pub open spec fn is_low(u: int) -> bool {
    0xDC00 <= u <= 0xDFFF
}

/// A UTF-16 code unit in the surrogate range.
pub open spec fn is_surrogate(u: int) -> bool {
    0xD800 <= u <= 0xDFFF
}

/// The scalar value encoded by a surrogate pair.
pub open spec fn pair_value(hi: int, lo: int) -> int {
    0x10000 + (hi - 0xD800) * 1024 + (lo - 0xDC00)
}

/// The scalar values of a sequence of characters.
pub open spec fn scalars(cs: Seq<char>) -> Seq<int> {
    cs.map_values(|c: char| c as int)
}

/// Strict UTF-16 decoding: the scalar values, or `None` at the first
/// unpaired surrogate.
pub open spec fn decode_spec(units: Seq<u16>) -> Option<Seq<int>>
    decreases units.len(),
{
    if units.len() == 0 {
        Some(Seq::empty())
    } else if !is_surrogate(units[0] as int) {
        match decode_spec(units.drop_first()) {
            Some(rest) => Some(seq![units[0] as int] + rest),
            None => None,
        }
    } else if is_high(units[0] as int) && units.len() >= 2 && is_low(units[1] as int) {
        match decode_spec(units.subrange(2, units.len() as int)) {
            Some(rest) => Some(seq![pair_value(units[0] as int, units[1] as int)] + rest),
            None => None,
        }
    } else {
        None
    }
}

/// The first unpaired surrogate met by strict decoding, or -1 when there
/// is none.
pub open spec fn first_unpaired(units: Seq<u16>) -> int
    decreases units.len(),
{
    if units.len() == 0 {
        -1
    } else if !is_surrogate(units[0] as int) {
        first_unpaired(units.drop_first())
    } else if is_high(units[0] as int) && units.len() >= 2 && is_low(units[1] as int) {
        first_unpaired(units.subrange(2, units.len() as int))
    } else {
        units[0] as int
    }
}

/// Lossy UTF-16 decoding: every unpaired surrogate becomes U+FFFD and
/// decoding resumes at the next unit.
pub open spec fn decode_lossy_spec(units: Seq<u16>) -> Seq<int>
    decreases units.len(),
{
    if units.len() == 0 {
        Seq::empty()
    } else if !is_surrogate(units[0] as int) {
        seq![units[0] as int] + decode_lossy_spec(units.drop_first())
    } else if is_high(units[0] as int) && units.len() >= 2 && is_low(units[1] as int) {
        seq![pair_value(units[0] as int, units[1] as int)] + decode_lossy_spec(units.subrange(2, units.len() as int))
    } else {
        seq![0xFFFDint] + decode_lossy_spec(units.drop_first())
    }
}

/// The UTF-16 encoding of one scalar value.
pub open spec fn encode_char_spec(c: int) -> Seq<u16> {
    if c < 0x10000 {
        seq![c as u16]
    } else {
        seq![(0xD800 + (c - 0x10000) / 1024) as u16, (0xDC00 + (c - 0x10000) % 1024) as u16]
    }
}

/// The UTF-16 encoding of a character sequence.
pub open spec fn encode_spec(cs: Seq<char>) -> Seq<u16>
    decreases cs.len(),
{
    if cs.len() == 0 {
        Seq::empty()
    } else {
        encode_spec(cs.drop_last()) + encode_char_spec(cs.last() as int)
    }
}

/// The number of UTF-16 units of a character sequence.
pub open spec fn utf16_len_spec(cs: Seq<char>) -> int
    decreases cs.len(),
{
    if cs.len() == 0 {
        0
    } else {
        utf16_len_spec(cs.drop_last()) + (if (cs.last() as int) < 0x10000 { 1int } else { 2int })
    }
}

/// Code units assembled from byte pairs in the given byte order.
pub open spec fn units_spec(bytes: Seq<u8>, big_endian: bool) -> Seq<u16> {
    Seq::new(
        bytes.len() / 2,
        |i: int|
            if big_endian {
                (bytes[2 * i] as int * 256 + bytes[2 * i + 1] as int) as u16
            } else {
                (bytes[2 * i] as int + bytes[2 * i + 1] as int * 256) as u16
            },
    )
}

/// A sequence of UTF-16 bytes could not be decoded: odd length or an
/// unpaired surrogate.
#[derive(Clone, Copy, Debug, PartialEq, Eq)]
pub struct FromUtf16Error;

/// A sequence of UTF-16 units held an unpaired surrogate.
#[derive(Clone, Copy, Debug, PartialEq, Eq)]
pub struct DecodeUtf16Error {
    /// The first unpaired surrogate.
    pub unpaired_surrogate: u16,
}

/// `char::from_u32`: the character with scalar value `u`, when `u` is a
/// Unicode scalar value (not a surrogate, at most U+10FFFF).
#[verifier::external_body]
fn char_from_u32(u: u32) -> (r: Option<char>)
    ensures
        (u <= 0xD7FF || (0xE000 <= u && u <= 0x10FFFF)) <==> r is Some,
        r is Some ==> r->0 as int == u,
{
    char::from_u32(u)
}

/// The character of a scalar value known to be valid.
fn scalar_to_char(u: u32) -> (c: char)
    requires
        u <= 0xD7FF || (0xE000 <= u && u <= 0x10FFFF),
    ensures
        c as int == u,
{
    match char_from_u32(u) {
        Some(c) => c,
        None => {
            proof {
                assert(false);
            }
            ' '
        },
    }
}

/// A character decoded from one or two code units.
#[derive(Clone, Copy, Debug, PartialEq, Eq)]
pub struct Decoded {
    /// The character.
    pub ch: char,
    /// Code units it took (1 or 2).
    pub used: usize,
}

/// One decoding step: the character starting at unit `i`, or `None` on an
/// unpaired surrogate.
pub fn decode_one(units: &[u16], i: usize) -> (r: Option<Decoded>)
    requires
        i < units@.len(),
    ensures
        !is_surrogate(units@[i as int] as int) ==> r is Some && r->0.used == 1 && r->0.ch as int == units@[i as int] as int,
        is_high(units@[i as int] as int) && i + 1 < units@.len() && is_low(units@[i as int + 1] as int) ==> r is Some
            && r->0.used == 2 && r->0.ch as int == pair_value(units@[i as int] as int, units@[i as int + 1] as int),
        is_surrogate(units@[i as int] as int) && !(is_high(units@[i as int] as int) && i + 1 < units@.len()
            && is_low(units@[i as int + 1] as int)) ==> r is None,
{
    let u = units[i];
    if u < 0xD800 || u > 0xDFFF {
        return Some(Decoded { ch: scalar_to_char(u as u32), used: 1 });
    }
    if u <= 0xDBFF && i + 1 < units.len() {
        let lo = units[i + 1];
        if 0xDC00 <= lo && lo <= 0xDFFF {
            let v: u32 = 0x10000 + (u as u32 - 0xD800) * 1024 + (lo as u32 - 0xDC00);
            return Some(Decoded { ch: scalar_to_char(v), used: 2 });
        }
    }
    None
}


/// Unfolding `decode_spec` and `decode_lossy_spec` one step at unit `i`.
proof fn lemma_decode_step(units: Seq<u16>, i: int)
    requires
        0 <= i < units.len(),
    ensures
        ({
            let t = units.subrange(i, units.len() as int);
            &&& t.len() > 0
            &&& t[0] == units[i]
            &&& t.drop_first() == units.subrange(i + 1, units.len() as int)
            &&& i + 1 < units.len() ==> t[1] == units[i + 1]
            &&& i + 1 < units.len() ==> t.subrange(2, t.len() as int) == units.subrange(i + 2, units.len() as int)
        }),
{
    let t = units.subrange(i, units.len() as int);
    assert(t.drop_first() =~= units.subrange(i + 1, units.len() as int));
    if i + 1 < units.len() {
        assert(t.subrange(2, t.len() as int) =~= units.subrange(i + 2, units.len() as int));
    }
}

/// Appending a character appends its scalar value.
proof fn lemma_scalars_push(cs: Seq<char>, c: char)
    ensures
        scalars(cs.push(c)) == scalars(cs).push(c as int),
{
    assert(scalars(cs.push(c)) =~= scalars(cs).push(c as int));
}

/// Decode native-endian UTF-16 `units` into characters, failing at the
/// first unpaired surrogate.
pub fn alloc_string_from_utf16(units: &[u16]) -> (r: Result<Vec<char>, DecodeUtf16Error>)
    ensures
        r is Ok <==> decode_spec(units@) is Some,
        r is Ok ==> decode_spec(units@) == Some(scalars(r->Ok_0@)),
        r is Ok ==> encode_spec(r->Ok_0@) == units@,
        r is Err ==> r->Err_0.unpaired_surrogate == first_unpaired(units@),
        r is Ok <==> well_formed_utf16(units@),
        r is Err ==> exists|k: int|
            0 <= k < units@.len() && #[trigger] unpaired_at(units@, k) && r->Err_0.unpaired_surrogate == units@[k]
                && forall|j: int| 0 <= j < k ==> !#[trigger] unpaired_at(units@, j),
{
    let n = units.len();
    let mut i: usize = 0;
    let mut out: Vec<char> = Vec::new();
    proof {
        assert(units@.subrange(0, n as int) =~= units@);
        assert(scalars(out@) =~= Seq::<int>::empty());
    }
    while i < n
        invariant
            i <= n,
            n == units@.len(),
            match decode_spec(units@.subrange(i as int, n as int)) {
                Some(rest) => decode_spec(units@) == Some(scalars(out@) + rest),
                None => decode_spec(units@) is None,
            },
            first_unpaired(units@) == first_unpaired(units@.subrange(i as int, n as int)),
        decreases n - i,
    {
        proof {
            lemma_decode_step(units@, i as int);
        }
        match decode_one(units, i) {
            Some(d) => {
                proof {
                    lemma_scalars_push(out@, d.ch);
                    let t = units@.subrange(i as int, n as int);
                    let next = units@.subrange(i + d.used, n as int);
                    match decode_spec(next) {
                        Some(rest) => {
                            assert(scalars(out@) + (seq![d.ch as int] + rest) =~= scalars(out@).push(d.ch as int) + rest);
                        },
                        None => {},
                    }
                }
                out.push(d.ch);
                i = i + d.used;
            },
            None => {
                proof {
                    law_strict_decode_accepts_exactly_well_formed(units@);
                    law_first_unpaired_is_first(units@);
                }
                return Err(DecodeUtf16Error { unpaired_surrogate: units[i] });
            },
        }
    }
    proof {
        assert(units@.subrange(n as int, n as int) =~= Seq::<u16>::empty());
        assert(scalars(out@) + Seq::<int>::empty() =~= scalars(out@));
        law_strict_decode_result_encodes_back(units@, out@);
        law_strict_decode_accepts_exactly_well_formed(units@);
    }
    Ok(out)
}

/// Decode native-endian UTF-16 `units` into characters, replacing every
/// unpaired surrogate with U+FFFD.
pub fn alloc_string_from_utf16_lossy(units: &[u16]) -> (r: Vec<char>)
    ensures
        scalars(r@) == decode_lossy_spec(units@),
        r@.len() == units@.len() - pair_count(units@),
        decode_spec(repair(units@)) == Some(scalars(r@)),
{
    proof {
        law_lossy_decode_length(units@);
        law_lossy_decode_is_decode_of_repair(units@);
    }
    let n = units.len();
    let mut i: usize = 0;
    let mut out: Vec<char> = Vec::new();
    proof {
        assert(units@.subrange(0, n as int) =~= units@);
        assert(scalars(out@) =~= Seq::<int>::empty());
    }
    while i < n
        invariant
            i <= n,
            n == units@.len(),
            decode_lossy_spec(units@) == scalars(out@) + decode_lossy_spec(units@.subrange(i as int, n as int)),
        decreases n - i,
    {
        proof {
            lemma_decode_step(units@, i as int);
        }
        let (c, used) = match decode_one(units, i) {
            Some(d) => (d.ch, d.used),
            None => (scalar_to_char(0xFFFD), 1),
        };
        proof {
            lemma_scalars_push(out@, c);
            let rest = decode_lossy_spec(units@.subrange(i + used, n as int));
            assert(scalars(out@) + (seq![c as int] + rest) =~= scalars(out@).push(c as int) + rest);
        }
        out.push(c);
        i = i + used;
    }
    proof {
        assert(units@.subrange(n as int, n as int) =~= Seq::<u16>::empty());
        assert(scalars(out@) + Seq::<int>::empty() =~= scalars(out@));
    }
    out
}

/// Assemble code units from byte pairs in the given byte order; a trailing
/// odd byte is ignored.
pub fn units_from_bytes(bytes: &[u8], big_endian: bool) -> (r: Vec<u16>)
    ensures
        r@ == units_spec(bytes@, big_endian),
{
    let len = bytes.len();
    let n = len / 2;
    let mut out: Vec<u16> = Vec::new();
    let mut i: usize = 0;
    proof {
        vstd::arithmetic::div_mod::lemma_fundamental_div_mod(bytes@.len() as int, 2);
        vstd::arithmetic::div_mod::lemma_mod_bound(bytes@.len() as int, 2);
        assert(2 * n <= bytes@.len());
    }
    while i < n
        invariant
            i <= n,
            n == bytes@.len() / 2,
            len == bytes@.len(),
            2 * n <= bytes@.len(),
            out@.len() == i,
            forall|k: int| 0 <= k < i ==> out@[k] == units_spec(bytes@, big_endian)[k],
        decreases n - i,
    {
        let j = i + i;
        let a = bytes[j] as u16;
        let b = bytes[j + 1] as u16;
        let u: u16 = if big_endian { a * 256 + b } else { a + b * 256 };
        out.push(u);
        i = i + 1;
    }
    proof {
        assert(out@ =~= units_spec(bytes@, big_endian));
    }
    out
}

/// Decode UTF-16 bytes in the given byte order; odd lengths and unpaired
/// surrogates are errors.
pub fn alloc_string_from_utf16_bytes(bytes: &[u8], big_endian: bool) -> (r: Result<Vec<char>, FromUtf16Error>)
    ensures
        r is Ok <==> (bytes@.len() % 2 == 0 && decode_spec(units_spec(bytes@, big_endian)) is Some),
        r is Ok ==> decode_spec(units_spec(bytes@, big_endian)) == Some(scalars(r->Ok_0@)),
{
    if bytes.len() % 2 != 0 {
        return Err(FromUtf16Error);
    }
    let units = units_from_bytes(bytes, big_endian);
    match alloc_string_from_utf16(units.as_slice()) {
        Ok(v) => Ok(v),
        Err(_) => Err(FromUtf16Error),
    }
}

/// Decode UTF-16 bytes in the given byte order, replacing unpaired
/// surrogates and an odd trailing byte with U+FFFD.
pub fn alloc_string_from_utf16_bytes_lossy(bytes: &[u8], big_endian: bool) -> (r: Vec<char>)
    ensures
        scalars(r@) == decode_lossy_spec(units_spec(bytes@, big_endian))
            + (if bytes@.len() % 2 == 0 { Seq::<int>::empty() } else { seq![0xFFFDint] }),
{
    let units = units_from_bytes(bytes, big_endian);
    let mut out = alloc_string_from_utf16_lossy(units.as_slice());
    if bytes.len() % 2 != 0 {
        let c = scalar_to_char(0xFFFD);
        proof {
            lemma_scalars_push(out@, c);
        }
        out.push(c);
    } else {
        proof {
            assert(scalars(out@) + Seq::<int>::empty() =~= scalars(out@));
        }
    }
    out
}

/// Decode little-endian UTF-16 bytes.
pub fn alloc_string_from_utf16le(bytes: &[u8]) -> (r: Result<Vec<char>, FromUtf16Error>)
    ensures
        r is Ok <==> (bytes@.len() % 2 == 0 && decode_spec(units_spec(bytes@, false)) is Some),
        r is Ok ==> decode_spec(units_spec(bytes@, false)) == Some(scalars(r->Ok_0@)),
{
    alloc_string_from_utf16_bytes(bytes, false)
}

/// Decode big-endian UTF-16 bytes.
pub fn alloc_string_from_utf16be(bytes: &[u8]) -> (r: Result<Vec<char>, FromUtf16Error>)
    ensures
        r is Ok <==> (bytes@.len() % 2 == 0 && decode_spec(units_spec(bytes@, true)) is Some),
        r is Ok ==> decode_spec(units_spec(bytes@, true)) == Some(scalars(r->Ok_0@)),
{
    alloc_string_from_utf16_bytes(bytes, true)
}

/// Decode little-endian UTF-16 bytes, lossily.
pub fn alloc_string_from_utf16le_lossy(bytes: &[u8]) -> (r: Vec<char>)
    ensures
        scalars(r@) == decode_lossy_spec(units_spec(bytes@, false))
            + (if bytes@.len() % 2 == 0 { Seq::<int>::empty() } else { seq![0xFFFDint] }),
{
    alloc_string_from_utf16_bytes_lossy(bytes, false)
}

/// Decode big-endian UTF-16 bytes, lossily.
pub fn alloc_string_from_utf16be_lossy(bytes: &[u8]) -> (r: Vec<char>)
    ensures
        scalars(r@) == decode_lossy_spec(units_spec(bytes@, true))
            + (if bytes@.len() % 2 == 0 { Seq::<int>::empty() } else { seq![0xFFFDint] }),
{
    alloc_string_from_utf16_bytes_lossy(bytes, true)
}


/// Units of one character's UTF-16 encoding.
pub fn encode_char(c: char, out: &mut Vec<u16>)
    ensures
        final(out)@ == old(out)@ + encode_char_spec(c as int),
{
    let v = c as u32;
    if v < 0x10000 {
        out.push(v as u16);
        proof {
            assert(final(out)@ =~= old(out)@ + encode_char_spec(c as int));
        }
    } else {
        let w = v - 0x10000;
        out.push((0xD800 + w / 1024) as u16);
        out.push((0xDC00 + w % 1024) as u16);
        proof {
            assert(final(out)@ =~= old(out)@ + encode_char_spec(c as int));
        }
    }
}

/// Transcode `s` from UTF-8 to UTF-16.
pub fn encode_utf16(s: &str) -> (r: Vec<u16>)
    ensures
        r@ == encode_spec(s@),
{
    let mut out: Vec<u16> = Vec::new();
    for c in it: s.chars()
        invariant
            out@ == encode_spec(it.seq().take(it.index())),
            it.seq() == s@,
    {
        proof {
            let pre = it.seq().take(it.index());
            let next = it.seq().take(it.index() + 1);
            assert(next.drop_last() =~= pre);
            assert(next.last() == c);
        }
        encode_char(c, &mut out);
    }
    proof {
        assert(s@.take(s@.len() as int) =~= s@);
    }
    out
}


/// Number of UTF-16 units in the transcoding of `s`, or `CapacityOverflow`
/// when that count does not fit in `usize`.
pub fn utf16_len(s: &str) -> (r: Result<usize, crate::error::AllocError>)
    ensures
        r is Ok <==> utf16_len_spec(s@) <= usize::MAX,
        r is Ok ==> r->Ok_0 == utf16_len_spec(s@),
        r is Err ==> r->Err_0 == crate::error::AllocError::CapacityOverflow,
{
    let mut total: usize = 0;
    for c in it: s.chars()
        invariant
            total == utf16_len_spec(it.seq().take(it.index())),
            it.seq() == s@,
    {
        proof {
            let pre = it.seq().take(it.index());
            let next = it.seq().take(it.index() + 1);
            assert(next.drop_last() =~= pre);
            assert(next.last() == c);
            lemma_utf16_len_prefix_monotone(s@, it.index() + 1);
            lemma_char_is_scalar(c);
            assert(utf16_len_spec(next) == total + (if (c as int) < 0x10000 { 1int } else { 2int }));
        }
        let units: usize = if (c as u32) < 0x10000 { 1 } else { 2 };
        match total.checked_add(units) {
            Some(t) => {
                total = t;
            },
            None => {
                return Err(crate::error::AllocError::CapacityOverflow);
            },
        }
    }
    proof {
        assert(s@.take(s@.len() as int) =~= s@);
    }
    Ok(total)
}

/// A character's scalar value lies outside the surrogate range and at
/// most U+10FFFF.
proof fn lemma_char_is_scalar(c: char)
    ensures
        0 <= c as int <= 0x10FFFF,
        !is_surrogate(c as int),
        c as u32 == c as int,
{
}

/// The UTF-16 length of a prefix never exceeds that of the whole.
proof fn lemma_utf16_len_prefix_monotone(cs: Seq<char>, k: int)
    requires
        0 <= k <= cs.len(),
    ensures
        utf16_len_spec(cs.take(k)) <= utf16_len_spec(cs),
    decreases cs.len() - k,
{
    if k < cs.len() {
        lemma_utf16_len_prefix_monotone(cs, k + 1);
        assert(cs.take(k + 1).drop_last() =~= cs.take(k));
    } else {
        assert(cs.take(k) =~= cs);
    }
}

/// The encoding of a sequence starts with the encoding of its first
/// character.
proof fn lemma_encode_first(cs: Seq<char>)
    requires
        cs.len() > 0,
    ensures
        encode_spec(cs) == encode_char_spec(cs[0] as int) + encode_spec(cs.drop_first()),
    decreases cs.len(),
{
    if cs.len() == 1 {
        assert(cs.drop_first() =~= Seq::<char>::empty());
        assert(encode_spec(cs.drop_last()) =~= Seq::<u16>::empty()) by {
            assert(cs.drop_last() =~= Seq::<char>::empty());
        }
        assert(encode_spec(cs) =~= encode_char_spec(cs[0] as int) + encode_spec(cs.drop_first()));
    } else {
        let init = cs.drop_last();
        lemma_encode_first(init);
        assert(init.drop_first() =~= cs.drop_first().drop_last());
        assert(cs.drop_first().last() == cs.last());
        assert(encode_spec(cs) =~= encode_char_spec(cs[0] as int) + encode_spec(cs.drop_first()));
    }
}

/// Decoding what the encoder produced gives back the characters: UTF-16
/// transcoding is lossless.
pub proof fn law_utf16_round_trip(cs: Seq<char>)
    ensures
        decode_spec(encode_spec(cs)) == Some(scalars(cs)),
        decode_lossy_spec(encode_spec(cs)) == scalars(cs),
        encode_spec(cs).len() == utf16_len_spec(cs),
    decreases cs.len(),
{
    if cs.len() == 0 {
        assert(scalars(cs) =~= Seq::<int>::empty());
    } else {
        let c = cs[0];
        let rest = cs.drop_first();
        lemma_encode_first(cs);
        law_utf16_round_trip(rest);
        lemma_utf16_len_first(cs);
        let u = encode_spec(cs);
        let tail = encode_spec(rest);
        let v = c as int;
        lemma_char_is_scalar(c);
        assert(scalars(cs) =~= seq![v] + scalars(rest));
        if v < 0x10000 {
            assert(u =~= seq![v as u16] + tail);
            assert(u.drop_first() =~= tail);
        } else {
            let w = v - 0x10000;
            let hi = 0xD800 + w / 1024;
            let lo = 0xDC00 + w % 1024;
            assert(w < 0x100000);
            assert(0 <= w / 1024 < 1024) by (nonlinear_arith)
                requires
                    0 <= w < 0x100000,
            ;
            assert(0 <= w % 1024 < 1024) by (nonlinear_arith)
                requires
                    0 <= w,
            ;
            assert(pair_value(hi, lo) == v) by (nonlinear_arith)
                requires
                    hi == 0xD800 + w / 1024,
                    lo == 0xDC00 + w % 1024,
                    w == v - 0x10000,
                    w >= 0,
            {
                vstd::arithmetic::div_mod::lemma_fundamental_div_mod(w, 1024);
            }
            assert(u =~= seq![hi as u16, lo as u16] + tail);
            assert(u.subrange(2, u.len() as int) =~= tail);
        }
    }
}

/// The UTF-16 length of a sequence starts with that of its first
/// character.
proof fn lemma_utf16_len_first(cs: Seq<char>)
    requires
        cs.len() > 0,
    ensures
        utf16_len_spec(cs) == (if (cs[0] as int) < 0x10000 { 1int } else { 2int }) + utf16_len_spec(cs.drop_first()),
    decreases cs.len(),
{
    if cs.len() == 1 {
        assert(cs.drop_first() =~= Seq::<char>::empty());
        assert(cs.drop_last() =~= Seq::<char>::empty());
    } else {
        let init = cs.drop_last();
        lemma_utf16_len_first(init);
        assert(init.drop_first() =~= cs.drop_first().drop_last());
        assert(cs.drop_first().last() == cs.last());
    }
}

/// The UTF-16 encoding of a sequence of scalar values, one value after
/// another.
pub open spec fn encode_scalars(xs: Seq<int>) -> Seq<u16>
    decreases xs.len(),
{
    if xs.len() == 0 {
        Seq::empty()
    } else {
        encode_char_spec(xs[0]) + encode_scalars(xs.drop_first())
    }
}

/// Encoding characters is encoding their scalar values.
pub proof fn lemma_encode_is_encode_scalars(cs: Seq<char>)
    ensures
        encode_spec(cs) == encode_scalars(scalars(cs)),
    decreases cs.len(),
{
    if cs.len() == 0 {
        assert(encode_spec(cs) =~= Seq::<u16>::empty());
    } else {
        lemma_encode_first(cs);
        lemma_encode_is_encode_scalars(cs.drop_first());
        assert(scalars(cs).drop_first() =~= scalars(cs.drop_first()));
    }
}

/// Strict decoding succeeds only on well-formed UTF-16: whatever it
/// decodes, encoding the result gives back exactly the input units. In
/// particular no surrogate outside a (high, low) pair is ever accepted.
pub proof fn law_strict_decode_inverts_encode(units: Seq<u16>)
    ensures
        decode_spec(units) is Some ==> encode_scalars(decode_spec(units)->0) == units,
    decreases units.len(),
{
    if units.len() == 0 {
        assert(units =~= Seq::<u16>::empty());
    } else if !is_surrogate(units[0] as int) {
        let rest = units.drop_first();
        law_strict_decode_inverts_encode(rest);
        if decode_spec(units) is Some {
            let x = decode_spec(units)->0;
            assert(x.drop_first() =~= decode_spec(rest)->0);
            assert(encode_char_spec(units[0] as int) =~= seq![units[0]]);
            assert(units =~= seq![units[0]] + rest);
        }
    } else if is_high(units[0] as int) && units.len() >= 2 && is_low(units[1] as int) {
        let rest = units.subrange(2, units.len() as int);
        law_strict_decode_inverts_encode(rest);
        if decode_spec(units) is Some {
            let x = decode_spec(units)->0;
            assert(x.drop_first() =~= decode_spec(rest)->0);
            let hi = units[0] as int;
            let lo = units[1] as int;
            let w = pair_value(hi, lo) - 0x10000;
            assert(w == (hi - 0xD800) * 1024 + (lo - 0xDC00));
            vstd::arithmetic::div_mod::lemma_fundamental_div_mod_converse(w, 1024, hi - 0xD800, lo - 0xDC00);
            assert(encode_char_spec(pair_value(hi, lo)) =~= seq![units[0], units[1]]);
            assert(units =~= seq![units[0], units[1]] + rest);
        }
    }
}

/// The strict decoder is the inverse of the encoder: a decoded string
/// encodes back to the very units it came from.
pub proof fn law_strict_decode_result_encodes_back(units: Seq<u16>, cs: Seq<char>)
    requires
        decode_spec(units) == Some(scalars(cs)),
    ensures
        encode_spec(cs) == units,
{
    law_strict_decode_inverts_encode(units);
    lemma_encode_is_encode_scalars(cs);
}

/// The number of well-formed (high, low) surrogate pairs in `units`: the
/// positions holding a high surrogate directly followed by a low one.
pub open spec fn pair_count(units: Seq<u16>) -> int
    decreases units.len(),
{
    if units.len() < 2 {
        0
    } else {
        (if is_high(units[0] as int) && is_low(units[1] as int) { 1int } else { 0int }) + pair_count(units.drop_first())
    }
}

/// Lossy decoding gives one scalar per code unit, except that a
/// well-formed (high, low) pair gives one scalar for both: every unpaired
/// surrogate, wherever it sits, becomes exactly one replacement character.
pub proof fn law_lossy_decode_length(units: Seq<u16>)
    ensures
        decode_lossy_spec(units).len() == units.len() - pair_count(units),
    decreases units.len(),
{
    if units.len() == 0 {
    } else if !is_surrogate(units[0] as int) {
        let tail = units.drop_first();
        law_lossy_decode_length(tail);
        assert(pair_count(units) == pair_count(tail));
        assert(decode_lossy_spec(units).len() == 1 + decode_lossy_spec(tail).len());
    } else if is_high(units[0] as int) && units.len() >= 2 && is_low(units[1] as int) {
        let rest = units.subrange(2, units.len() as int);
        law_lossy_decode_length(rest);
        let tail = units.drop_first();
        assert(tail.drop_first() =~= rest);
        assert(!is_high(tail[0] as int));
        assert(pair_count(tail) == pair_count(rest));
        assert(pair_count(units) == 1 + pair_count(tail));
        assert(decode_lossy_spec(units).len() == 1 + decode_lossy_spec(rest).len());
    } else {
        let tail = units.drop_first();
        law_lossy_decode_length(tail);
        assert(pair_count(units) == pair_count(tail));
        assert(decode_lossy_spec(units).len() == 1 + decode_lossy_spec(tail).len());
    }
}

/// A lone surrogate code unit decodes lossily to one U+FFFD, and any other
/// lone unit to itself.
pub proof fn law_lossy_decode_single_unit(u: u16)
    ensures
        is_surrogate(u as int) ==> decode_lossy_spec(seq![u]) == seq![0xFFFDint],
        !is_surrogate(u as int) ==> decode_lossy_spec(seq![u]) == seq![u as int],
{
    let one = seq![u];
    assert(one.drop_first() =~= Seq::<u16>::empty());
    assert(decode_lossy_spec(one.drop_first()) == Seq::<int>::empty());
    if is_surrogate(u as int) {
        assert(decode_lossy_spec(one) =~= seq![0xFFFDint]);
    } else {
        assert(decode_lossy_spec(one) =~= seq![u as int]);
    }
}

/// On well-formed UTF-16 the lossy decoder agrees with the strict one.
pub proof fn law_lossy_agrees_with_strict(units: Seq<u16>)
    ensures
        decode_spec(units) is Some ==> decode_lossy_spec(units) == decode_spec(units)->0,
    decreases units.len(),
{
    if units.len() == 0 {
    } else if !is_surrogate(units[0] as int) {
        law_lossy_agrees_with_strict(units.drop_first());
    } else if is_high(units[0] as int) && units.len() >= 2 && is_low(units[1] as int) {
        law_lossy_agrees_with_strict(units.subrange(2, units.len() as int));
    }
}

/// Lossy decoding of two pieces is the decoding of each, when no
/// surrogate pair straddles the cut (the first piece does not end in a
/// high surrogate).
pub proof fn law_lossy_decode_concatenates(u: Seq<u16>, v: Seq<u16>)
    requires
        u.len() == 0 || !is_high(u[u.len() - 1] as int),
    ensures
        decode_lossy_spec(u + v) == decode_lossy_spec(u) + decode_lossy_spec(v),
    decreases u.len(),
{
    let w = u + v;
    if u.len() == 0 {
        assert(w =~= v);
    } else if !is_surrogate(u[0] as int) {
        assert(w.drop_first() =~= u.drop_first() + v);
        law_lossy_decode_concatenates(u.drop_first(), v);
    } else if is_high(u[0] as int) && u.len() >= 2 && is_low(u[1] as int) {
        assert(w.subrange(2, w.len() as int) =~= u.subrange(2, u.len() as int) + v);
        law_lossy_decode_concatenates(u.subrange(2, u.len() as int), v);
    } else {
        assert(w.drop_first() =~= u.drop_first() + v);
        law_lossy_decode_concatenates(u.drop_first(), v);
    }
}

/// Unit `i` of `u` is a surrogate that belongs to no (high, low) pair: a
/// high surrogate not directly followed by a low one, or a low surrogate
/// not directly preceded by a high one.
pub open spec fn unpaired_at(u: Seq<u16>, i: int) -> bool {
    &&& is_surrogate(u[i] as int)
    &&& !(is_high(u[i] as int) && i + 1 < u.len() && is_low(u[i + 1] as int))
    &&& !(is_low(u[i] as int) && i >= 1 && is_high(u[i - 1] as int))
}

/// Well-formed UTF-16: no unit is an unpaired surrogate.
pub open spec fn well_formed_utf16(u: Seq<u16>) -> bool {
    forall|i: int| 0 <= i < u.len() ==> !#[trigger] unpaired_at(u, i)
}

/// `u` with every unpaired surrogate replaced by the code unit of U+FFFD.
pub open spec fn repair(u: Seq<u16>) -> Seq<u16> {
    Seq::new(u.len(), |i: int| if unpaired_at(u, i) { 0xFFFDu16 } else { u[i] })
}

/// Dropping the first `k` units keeps which of the remaining units are
/// unpaired, when no pair straddles the cut.
proof fn lemma_unpaired_shift(u: Seq<u16>, k: int)
    requires
        1 <= k <= u.len(),
        !(k < u.len() && is_high(u[k - 1] as int) && is_low(u[k] as int)),
    ensures
        forall|i: int| 0 <= i < u.len() - k ==> unpaired_at(u, i + k) == #[trigger] unpaired_at(u.subrange(k, u.len() as int), i),
{
    let t = u.subrange(k, u.len() as int);
    assert forall|i: int| 0 <= i < u.len() - k implies unpaired_at(u, i + k) == #[trigger] unpaired_at(t, i) by {
        assert(t[i] == u[i + k]);
        if i + 1 < t.len() {
            assert(t[i + 1] == u[i + k + 1]);
        }
        if i >= 1 {
            assert(t[i - 1] == u[i + k - 1]);
        }
    }
}

/// Strict decoding succeeds exactly on well-formed UTF-16: it fails if and
/// only if some unit is a surrogate outside a (high, low) pair.
pub proof fn law_strict_decode_accepts_exactly_well_formed(u: Seq<u16>)
    ensures
        decode_spec(u) is Some <==> well_formed_utf16(u),
    decreases u.len(),
{
    if u.len() == 0 {
    } else if !is_surrogate(u[0] as int) || (is_high(u[0] as int) && u.len() >= 2 && is_low(u[1] as int)) {
        let k: int = if !is_surrogate(u[0] as int) { 1 } else { 2 };
        let t = u.subrange(k, u.len() as int);
        assert(k == 1 ==> t =~= u.drop_first());
        law_strict_decode_accepts_exactly_well_formed(t);
        lemma_unpaired_shift(u, k);
        assert(!unpaired_at(u, 0));
        assert(k == 2 ==> !unpaired_at(u, 1));
        if well_formed_utf16(t) {
            assert forall|i: int| 0 <= i < u.len() implies !#[trigger] unpaired_at(u, i) by {
                if i >= k {
                    assert(unpaired_at(t, i - k) == unpaired_at(u, i));
                }
            }
        } else {
            let j = choose|j: int| 0 <= j < t.len() && #[trigger] unpaired_at(t, j);
            assert(unpaired_at(u, j + k));
        }
    } else {
        assert(unpaired_at(u, 0));
    }
}

/// The unit reported by a failed strict decoding is the first unpaired
/// surrogate of the input; when decoding succeeds there is none to report.
pub proof fn law_first_unpaired_is_first(u: Seq<u16>)
    ensures
        decode_spec(u) is Some ==> first_unpaired(u) == -1,
        decode_spec(u) is None ==> exists|i: int|
            0 <= i < u.len() && #[trigger] unpaired_at(u, i) && first_unpaired(u) == u[i] as int
                && forall|j: int| 0 <= j < i ==> !#[trigger] unpaired_at(u, j),
    decreases u.len(),
{
    if u.len() == 0 {
    } else if !is_surrogate(u[0] as int) || (is_high(u[0] as int) && u.len() >= 2 && is_low(u[1] as int)) {
        let k: int = if !is_surrogate(u[0] as int) { 1 } else { 2 };
        let t = u.subrange(k, u.len() as int);
        assert(k == 1 ==> t =~= u.drop_first());
        law_first_unpaired_is_first(t);
        lemma_unpaired_shift(u, k);
        assert(!unpaired_at(u, 0));
        assert(k == 2 ==> !unpaired_at(u, 1));
        if decode_spec(u) is None {
            let i = choose|i: int|
                0 <= i < t.len() && #[trigger] unpaired_at(t, i) && first_unpaired(t) == t[i] as int
                    && forall|j: int| 0 <= j < i ==> !#[trigger] unpaired_at(t, j);
            assert(unpaired_at(u, i + k));
            assert forall|j: int| 0 <= j < i + k implies !#[trigger] unpaired_at(u, j) by {
                if j >= k {
                    assert(unpaired_at(t, j - k) == unpaired_at(u, j));
                }
            }
        }
    } else {
        assert(unpaired_at(u, 0));
    }
}

/// Lossy decoding is strict decoding after every unpaired surrogate has
/// been replaced by U+FFFD: each unpaired surrogate, wherever it sits,
/// gives exactly one replacement character, and everything else decodes
/// as it would strictly.
pub proof fn law_lossy_decode_is_decode_of_repair(u: Seq<u16>)
    ensures
        decode_spec(repair(u)) == Some(decode_lossy_spec(u)),
    decreases u.len(),
{
    let r = repair(u);
    if u.len() == 0 {
        assert(r =~= Seq::<u16>::empty());
    } else if !is_surrogate(u[0] as int) || (is_high(u[0] as int) && u.len() >= 2 && is_low(u[1] as int)) {
        let k: int = if !is_surrogate(u[0] as int) { 1 } else { 2 };
        let t = u.subrange(k, u.len() as int);
        assert(k == 1 ==> t =~= u.drop_first());
        law_lossy_decode_is_decode_of_repair(t);
        lemma_unpaired_shift(u, k);
        assert(!unpaired_at(u, 0));
        assert(k == 2 ==> !unpaired_at(u, 1));
        assert(r[0] == u[0]);
        assert(k == 2 ==> r[1] == u[1]);
        assert(r.subrange(k, r.len() as int) =~= repair(t));
        assert(k == 1 ==> r.drop_first() =~= r.subrange(1, r.len() as int));
    } else {
        let t = u.drop_first();
        assert(t =~= u.subrange(1, u.len() as int));
        law_lossy_decode_is_decode_of_repair(t);
        lemma_unpaired_shift(u, 1);
        assert(unpaired_at(u, 0));
        assert(r[0] == 0xFFFDu16);
        assert(r.drop_first() =~= repair(t));
    }
}

} // verus!
