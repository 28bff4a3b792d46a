//! Opcode bit patterns such as `0b00xx_x100`: `0` and `1` are fixed bits, `x` (or `X`) a
//! free bit, `_` a separator.

use vstd::arithmetic::power2::pow2;
use vstd::prelude::*;

verus! {

/// Why a bit pattern could not be read.
#[derive(Debug, Clone, Copy, PartialEq, Eq, Structural)]
pub enum PatternError {
    /// The pattern does not start with `0b`.
    MissingPrefix,
    /// The pattern holds a character that is no bit, no `x` and no `_`.
    InvalidCharacter(char),
}

/// The position and width of the free bits of a pattern.
#[derive(Debug, Clone, Copy, PartialEq, Eq, Structural)]
pub struct BitField {
    /// The position of the lowest free bit, counted from the least significant bit.
    pub shift: usize,
    /// How many free bits the pattern has.
    pub mask_len: usize,
}

/// Whether `p` starts with `0b`.
pub open spec fn has_prefix(p: Seq<char>) -> bool {
    p.len() >= 2 && p[0] == '0' && p[1] == 'b'
}

/// Every text of `ps` followed by `bit`.
pub open spec fn with_bit(ps: Seq<Seq<char>>, bit: Seq<char>) -> Seq<Seq<char>> {
    Seq::new(ps.len(), |j: int| ps[j] + bit)
}

/// Every text of `ps` followed by `0`, then by `1`, in the order of `ps`.
pub open spec fn doubled(ps: Seq<Seq<char>>) -> Seq<Seq<char>> {
    Seq::new(
        2 * ps.len(),
        |k: int|
            ps[k / 2] + if k % 2 == 0 {
                "0"@
            } else {
                "1"@
            },
    )
}

/// Reading the characters `rest` after the texts `ps` were built: a bit extends each text, a
/// free bit doubles them, `_` is skipped, and any other character is the error.
pub open spec fn permutations_of(rest: Seq<char>, ps: Seq<Seq<char>>) -> Result<
    Seq<Seq<char>>,
    char,
>
    decreases rest.len(),
{
    if rest.len() == 0 {
        Ok(ps)
    } else {
        let c = rest[0];
        if c == '0' {
            permutations_of(rest.drop_first(), with_bit(ps, "0"@))
        } else if c == '1' {
            permutations_of(rest.drop_first(), with_bit(ps, "1"@))
        } else if c == 'x' || c == 'X' {
            permutations_of(rest.drop_first(), doubled(ps))
        } else if c == '_' {
            permutations_of(rest.drop_first(), ps)
        } else {
            Err(c)
        }
    }
}

/// Reading the characters `rest` from the last one back, after the free bits of what came
/// after them were counted: `idx` bits lie after them, the lowest free one at `shift`.
pub open spec fn field_scan(rest: Seq<char>, shift: Option<nat>, mask_len: nat, idx: nat) -> Result<
    (Option<nat>, nat),
    char,
>
    decreases rest.len(),
{
    if rest.len() == 0 {
        Ok((shift, mask_len))
    } else {
        let c = rest.last();
        if c == '0' || c == '1' {
            field_scan(rest.drop_last(), shift, mask_len, idx + 1)
        } else if c == 'x' || c == 'X' {
            field_scan(
                rest.drop_last(),
                if shift is Some {
                    shift
                } else {
                    Some(idx)
                },
                mask_len + 1,
                idx + 1,
            )
        } else if c == '_' {
            field_scan(rest.drop_last(), shift, mask_len, idx)
        } else {
            Err(c)
        }
    }
}

/// The texts that a vector of strings holds.
pub open spec fn texts(v: Seq<String>) -> Seq<Seq<char>> {
    v.map_values(|s: String| s@)
}

/// Every string of `ps` followed by `bit`.
fn append_bit(ps: &Vec<String>, bit: &str) -> (r: Vec<String>)
    ensures
        texts(r@) == with_bit(texts(ps@), bit@),
{
    let mut out: Vec<String> = Vec::new();
    let mut j: usize = 0;
    while j < ps.len()
        invariant
            j <= ps.len(),
            out@.len() == j,
            forall|k: int| 0 <= k < j ==> #[trigger] out@[k]@ == ps@[k]@ + bit@,
        decreases ps.len() - j,
    {
        let mut s = ps[j].clone();
        s.append(bit);
        out.push(s);
        j = j + 1;
    }
    assert(texts(out@) =~= with_bit(texts(ps@), bit@));
    out
}

/// Every string of `ps` followed by `0`, then by `1`.
fn double(ps: &Vec<String>) -> (r: Vec<String>)
    ensures
        texts(r@) == doubled(texts(ps@)),
{
    let mut out: Vec<String> = Vec::new();
    let mut j: usize = 0;
    while j < ps.len()
        invariant
            j <= ps.len(),
            out@.len() == 2 * j,
            forall|k: int|
                0 <= k < 2 * j ==> #[trigger] out@[k]@ == ps@[k / 2]@ + if k % 2 == 0 {
                    "0"@
                } else {
                    "1"@
                },
        decreases ps.len() - j,
    {
        let mut zero = ps[j].clone();
        zero.append("0");
        let mut one = ps[j].clone();
        one.append("1");
        out.push(zero);
        out.push(one);
        proof {
            assert((2 * j) / 2 == j as int);
            assert((2 * j + 1) / 2 == j as int);
            assert((2 * j + 1) % 2 == 1);
        }
        j = j + 1;
    }
    assert(texts(out@) =~= doubled(texts(ps@)));
    out
}

/// Every byte literal that `pattern` stands for, written as `0b` and its bits, in ascending
/// order: each free bit is taken as `0`, then as `1`.
pub fn byte_permutations(pattern: &str) -> (r: Result<Vec<String>, PatternError>)
    ensures
        !has_prefix(pattern@) ==> r == Err::<Vec<String>, PatternError>(PatternError::MissingPrefix),
        has_prefix(pattern@) ==> match permutations_of(pattern@.skip(2), seq!["0b"@]) {
            Err(c) => r == Err::<Vec<String>, PatternError>(PatternError::InvalidCharacter(c)),
            Ok(ps) => r matches Ok(v) && texts(v@) == ps,
        },
{
    let len = pattern.unicode_len();
    if len < 2 || pattern.get_char(0) != '0' || pattern.get_char(1) != 'b' {
        return Err(PatternError::MissingPrefix);
    }
    let mut perms: Vec<String> = Vec::new();
    perms.push(String::from_str("0b"));
    assert(texts(perms@) =~= seq!["0b"@]);
    assert(pattern@.subrange(2, len as int) =~= pattern@.skip(2));
    let mut i: usize = 2;
    while i < len
        invariant
            2 <= i <= len,
            len == pattern@.len(),
            has_prefix(pattern@),
            permutations_of(pattern@.subrange(i as int, len as int), texts(perms@))
                == permutations_of(pattern@.skip(2), seq!["0b"@]),
        decreases len - i,
    {
        let c = pattern.get_char(i);
        let ghost rest = pattern@.subrange(i as int, len as int);
        assert(rest.drop_first() =~= pattern@.subrange(i + 1, len as int));
        assert(rest[0] == c);
        if c == '0' {
            perms = append_bit(&perms, "0");
        } else if c == '1' {
            perms = append_bit(&perms, "1");
        } else if c == 'x' || c == 'X' {
            perms = double(&perms);
        } else if c == '_' {
        } else {
            return Err(PatternError::InvalidCharacter(c));
        }
        i = i + 1;
    }
    assert(pattern@.subrange(len as int, len as int) =~= Seq::<char>::empty());
    Ok(perms)
}

/// Where the free bits of `pattern` lie: the lowest one's position, counted from the least
/// significant bit, and how many there are. The characters are read from the last one
/// back, so an invalid character reported is the last one in the pattern.
pub fn match_bits(pattern: &str) -> (r: Result<BitField, PatternError>)
    requires
        has_prefix(pattern@) ==> (field_scan(pattern@.skip(2), None, 0, 0) matches Ok((shift, _))
            ==> shift is Some),
    ensures
        !has_prefix(pattern@) ==> r == Err::<BitField, PatternError>(PatternError::MissingPrefix),
        has_prefix(pattern@) ==> match field_scan(pattern@.skip(2), None, 0, 0) {
            Err(c) => r == Err::<BitField, PatternError>(PatternError::InvalidCharacter(c)),
            Ok((shift, mask_len)) => r matches Ok(f) && shift == Some(f.shift as nat) && f.mask_len
                == mask_len,
        },
{
    let len = pattern.unicode_len();
    if len < 2 || pattern.get_char(0) != '0' || pattern.get_char(1) != 'b' {
        return Err(PatternError::MissingPrefix);
    }
    assert(pattern@.subrange(2, len as int) =~= pattern@.skip(2));
    let mut i: usize = len;
    let mut shift: Option<usize> = None;
    let mut mask_len: usize = 0;
    let mut idx: usize = 0;
    while i > 2
        invariant
            2 <= i <= len,
            len == pattern@.len(),
            has_prefix(pattern@),
            mask_len <= idx,
            idx + i <= len,
            shift matches Some(s) ==> s < idx,
            field_scan(
                pattern@.subrange(2, i as int),
                match shift {
                    Some(s) => Some(s as nat),
                    None => None,
                },
                mask_len as nat,
                idx as nat,
            ) == field_scan(pattern@.skip(2), None, 0, 0),
        decreases i,
    {
        let c = pattern.get_char(i - 1);
        let ghost rest = pattern@.subrange(2, i as int);
        assert(rest.drop_last() =~= pattern@.subrange(2, i - 1));
        assert(rest.last() == c);
        if c == '0' || c == '1' {
            idx = idx + 1;
        } else if c == 'x' || c == 'X' {
            if shift.is_none() {
                shift = Some(idx);
            }
            mask_len = mask_len + 1;
            idx = idx + 1;
        } else if c == '_' {
        } else {
            return Err(PatternError::InvalidCharacter(c));
        }
        i = i - 1;
    }
    assert(pattern@.subrange(2, 2) =~= Seq::<char>::empty());
    match shift {
        Some(s) => Ok(BitField { shift: s, mask_len }),
        None => Ok(BitField { shift: 0, mask_len }),
    }
}

/// Whether the bits `bits` (each `0` or `1`) are one reading of the pattern characters
/// `pat`: a fixed bit must match, a free bit may be either, and `_` stands for nothing.
pub open spec fn fits(bits: Seq<char>, pat: Seq<char>) -> bool
    decreases pat.len(),
{
    if pat.len() == 0 {
        bits.len() == 0
    } else if pat.last() == '_' {
        fits(bits, pat.drop_last())
    } else {
        &&& bits.len() > 0
        &&& if pat.last() == 'x' || pat.last() == 'X' {
            bits.last() == '0' || bits.last() == '1'
        } else {
            bits.last() == pat.last()
        }
        &&& fits(bits.drop_last(), pat.drop_last())
    }
}

/// How many free bits the pattern characters `pat` hold.
pub open spec fn free_bits(pat: Seq<char>) -> nat
    decreases pat.len(),
{
    if pat.len() == 0 {
        0
    } else if pat[0] == 'x' || pat[0] == 'X' {
        1 + free_bits(pat.drop_first())
    } else {
        free_bits(pat.drop_first())
    }
}

/// Whether the literal `t` is `0b` followed by a reading of `pat`.
pub open spec fn literal_fits(t: Seq<char>, pat: Seq<char>) -> bool {
    t.len() >= 2 && t.take(2) == "0b"@ && fits(t.skip(2), pat)
}

proof fn lemma_fits_push(t: Seq<char>, done: Seq<char>, bit: char, c: char)
    requires
        literal_fits(t, done),
        bit == '0' || bit == '1',
        c == bit || c == 'x' || c == 'X',
    ensures
        literal_fits(t.push(bit), done.push(c)),
{
    let b = t.skip(2);
    assert(t.push(bit).take(2) =~= t.take(2));
    assert(t.push(bit).skip(2) =~= b.push(bit));
    assert(b.push(bit).drop_last() =~= b);
    assert(done.push(c).drop_last() =~= done);
}

proof fn lemma_fits_skip(t: Seq<char>, done: Seq<char>)
    requires
        literal_fits(t, done),
    ensures
        literal_fits(t, done.push('_')),
{
    assert(done.push('_').drop_last() =~= done);
}

/// Reading `rest` after texts that each fit `done` gives texts that each fit `done + rest`,
/// `2^k` of them per text for `k` free bits in `rest`.
proof fn lemma_permutations_fit_from(rest: Seq<char>, ps: Seq<Seq<char>>, done: Seq<char>)
    requires
        forall|j: int| 0 <= j < ps.len() ==> literal_fits(#[trigger] ps[j], done),
        permutations_of(rest, ps) is Ok,
    ensures
        permutations_of(rest, ps)->Ok_0.len() == ps.len() * pow2(free_bits(rest)),
        forall|j: int|
            0 <= j < permutations_of(rest, ps)->Ok_0.len() ==> literal_fits(
                #[trigger] permutations_of(rest, ps)->Ok_0[j],
                done + rest,
            ),
    decreases rest.len(),
{
    reveal_strlit("0");
    reveal_strlit("1");
    if rest.len() == 0 {
        assert(done + rest =~= done);
        vstd::arithmetic::power2::lemma2_to64();
    } else {
        let c = rest[0];
        let tail = rest.drop_first();
        let done2 = done.push(c);
        assert(done + rest =~= done2 + tail);
        if c == '0' || c == '1' {
            let bit = if c == '0' {
                "0"@
            } else {
                "1"@
            };
            let ps2 = with_bit(ps, bit);
            assert forall|j: int| 0 <= j < ps2.len() implies literal_fits(#[trigger] ps2[j], done2) by {
                assert(ps2[j] =~= ps[j].push(c));
                lemma_fits_push(ps[j], done, c, c);
            }
            lemma_permutations_fit_from(tail, ps2, done2);
        } else if c == 'x' || c == 'X' {
            let ps2 = doubled(ps);
            assert forall|j: int| 0 <= j < ps2.len() implies literal_fits(#[trigger] ps2[j], done2) by {
                let bit = if j % 2 == 0 {
                    '0'
                } else {
                    '1'
                };
                assert(ps2[j] =~= ps[j / 2].push(bit));
                lemma_fits_push(ps[j / 2], done, bit, c);
            }
            lemma_permutations_fit_from(tail, ps2, done2);
            vstd::arithmetic::power2::lemma_pow2_unfold(free_bits(rest));
            assert(ps2.len() * pow2(free_bits(tail)) == ps.len() * pow2(free_bits(rest))) by (
            nonlinear_arith)
                requires
                    ps2.len() == 2 * ps.len(),
                    pow2(free_bits(rest)) == 2 * pow2(free_bits(tail)),
            ;
        } else {
            assert forall|j: int| 0 <= j < ps.len() implies literal_fits(#[trigger] ps[j], done2) by {
                lemma_fits_skip(ps[j], done);
            }
            lemma_permutations_fit_from(tail, ps, done2);
        }
    }
}

/// The literals of a well-formed pattern: each is `0b` followed by a reading of the pattern,
/// fixed bits as written and free bits either way, and there are `2^k` of them for `k` free
/// bits.
pub proof fn lemma_permutations_fit(pattern: Seq<char>)
    requires
        has_prefix(pattern),
        permutations_of(pattern.skip(2), seq!["0b"@]) is Ok,
    ensures
        permutations_of(pattern.skip(2), seq!["0b"@])->Ok_0.len() == pow2(
            free_bits(pattern.skip(2)),
        ),
        forall|j: int|
            0 <= j < permutations_of(pattern.skip(2), seq!["0b"@])->Ok_0.len() ==> literal_fits(
                #[trigger] permutations_of(pattern.skip(2), seq!["0b"@])->Ok_0[j],
                pattern.skip(2),
            ),
{
    reveal_strlit("0b");
    let start = seq!["0b"@];
    let empty = Seq::<char>::empty();
    assert(literal_fits(start[0], empty)) by {
        assert("0b"@.take(2) =~= "0b"@);
        assert("0b"@.skip(2) =~= empty);
    }
    lemma_permutations_fit_from(pattern.skip(2), start, empty);
    assert(empty + pattern.skip(2) =~= pattern.skip(2));
    let k = free_bits(pattern.skip(2));
    assert(start.len() * pow2(k) == pow2(k)) by (nonlinear_arith)
        requires
            start.len() == 1,
    ;
}

proof fn lemma_free_bits_last(pat: Seq<char>)
    requires
        pat.len() > 0,
    ensures
        free_bits(pat) == free_bits(pat.drop_last()) + if pat.last() == 'x' || pat.last() == 'X' {
            1nat
        } else {
            0nat
        },
    decreases pat.len(),
{
    if pat.len() > 1 {
        let tail = pat.drop_first();
        lemma_free_bits_last(tail);
        assert(tail.drop_last() =~= pat.drop_last().drop_first());
        assert(tail.last() == pat.last());
        assert(pat.drop_last()[0] == pat[0]);
    } else {
        assert(pat.drop_first() =~= Seq::<char>::empty());
        assert(pat.drop_last() =~= Seq::<char>::empty());
        assert(pat.last() == pat[0]);
        assert(free_bits(Seq::<char>::empty()) == 0);
    }
}

proof fn lemma_field_scan_counts(rest: Seq<char>, shift: Option<nat>, mask_len: nat, idx: nat)
    requires
        field_scan(rest, shift, mask_len, idx) is Ok,
    ensures
        field_scan(rest, shift, mask_len, idx)->Ok_0.1 == mask_len + free_bits(rest),
    decreases rest.len(),
{
    if rest.len() > 0 {
        lemma_free_bits_last(rest);
        let c = rest.last();
        let more = rest.drop_last();
        if c == '0' || c == '1' {
            lemma_field_scan_counts(more, shift, mask_len, idx + 1);
        } else if c == 'x' || c == 'X' {
            lemma_field_scan_counts(
                more,
                if shift is Some {
                    shift
                } else {
                    Some(idx)
                },
                mask_len + 1,
                idx + 1,
            );
        } else {
            lemma_field_scan_counts(more, shift, mask_len, idx);
        }
    }
}

/// The width of the field of a well-formed pattern is the number of its free bits.
pub proof fn lemma_field_width(pattern: Seq<char>)
    requires
        has_prefix(pattern),
        field_scan(pattern.skip(2), None, 0, 0) is Ok,
    ensures
        field_scan(pattern.skip(2), None, 0, 0)->Ok_0.1 == free_bits(pattern.skip(2)),
{
    lemma_field_scan_counts(pattern.skip(2), None, 0, 0);
}

} // verus!
