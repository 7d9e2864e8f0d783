//! Base-36 build-number encoding.
//!
//! A build number is the base-36 rendering of a count of elapsed minutes,
//! truncated to its five least-significant digits and left-padded with `'0'`
//! to exactly five characters.

use vstd::prelude::*;

verus! {

/// The character standing for one base-36 digit value: `0`-`9` for values
/// 0 through 9, `A`-`Z` for values 10 through 35.
pub open spec fn digit_char(d: int) -> char
    recommends
        0 <= d < 36,
{
    if d < 10 {
        ((d + 48) as u8) as char
    } else {
        ((d + 55) as u8) as char
    }
}

/// A character the encoder may emit: a decimal digit or an upper-case letter.
pub open spec fn is_base36_char(c: char) -> bool {
    (48 <= c as u32 <= 57) || (65 <= c as u32 <= 90)
}

/// The base-36 digit sequence of `m`, most-significant digit first.
/// Zero is written as the single digit `0`.
pub open spec fn base36(m: nat) -> Seq<char>
    decreases m,
{
    if m < 36 {
        seq![digit_char(m as int)]
    } else {
        base36(m / 36) + seq![digit_char((m % 36) as int)]
    }
}

/// The last five characters of `s`, or all of `s` when it is shorter.
pub open spec fn last5(s: Seq<char>) -> Seq<char> {
    if s.len() > 5 {
        s.subrange(s.len() - 5, s.len() as int)
    } else {
        s
    }
}

/// `s` left-padded with `'0'` to length five; sequences already five long
/// (or longer) are returned unchanged.
pub open spec fn pad5(s: Seq<char>) -> Seq<char> {
    if s.len() < 5 {
        Seq::new((5 - s.len()) as nat, |i: int| '0') + s
    } else {
        s
    }
}

/// The whole encoding: base-36 digits, truncated to the last five, padded to
/// exactly five.
pub open spec fn encode_spec(m: nat) -> Seq<char> {
    pad5(last5(base36(m)))
}

proof fn lemma_digit_char_in_set(d: int)
    requires
        0 <= d < 36,
    ensures
        is_base36_char(digit_char(d)),
{
}

/// Every base-36 digit sequence is non-empty and made of base-36 characters.
proof fn lemma_base36_well_formed(m: nat)
    ensures
        base36(m).len() >= 1,
        forall|i: int| 0 <= i < base36(m).len() ==> is_base36_char(#[trigger] base36(m)[i]),
    decreases m,
{
    if m < 36 {
        lemma_digit_char_in_set(m as int);
    } else {
        lemma_base36_well_formed(m / 36);
        lemma_digit_char_in_set((m % 36) as int);
    }
}

/// The encoding of any non-negative count is five characters long, each a
/// decimal digit or an upper-case letter.
pub proof fn lemma_encode_well_formed(m: nat)
    ensures
        encode_spec(m).len() == 5,
        forall|i: int| 0 <= i < 5 ==> is_base36_char(#[trigger] encode_spec(m)[i]),
{
    lemma_base36_well_formed(m);
}

/// Padding a sequence that is already five characters long changes nothing.
pub proof fn lemma_pad5_no_op(s: Seq<char>)
    requires
        s.len() == 5,
    ensures
        pad5(s) == s,
{
}

/// Padding is idempotent: a second padding never changes anything.
pub proof fn lemma_pad5_idempotent(s: Seq<char>)
    ensures
        pad5(pad5(s)) == pad5(s),
{
}

/// When the full base-36 rendering is longer than five digits, the encoding
/// is exactly its last five characters: high-order digits are dropped, and
/// nothing is re-encoded or padded.
pub proof fn lemma_encode_truncates(m: nat)
    requires
        base36(m).len() > 5,
    ensures
        encode_spec(m) == base36(m).subrange(base36(m).len() - 5, base36(m).len() as int),
{
}

fn digit_char_exec(d: u8) -> (c: char)
    requires
        d < 36,
    ensures
        c == digit_char(d as int),
{
    if d < 10 {
        (48 + d) as char
    } else {
        (65 + (d - 10)) as char
    }
}

fn base36_digits(m: u64) -> (r: Vec<char>)
    ensures
        r@ == base36(m as nat),
    decreases m,
{
    if m < 36 {
        let mut r: Vec<char> = Vec::new();
        r.push(digit_char_exec(m as u8));
        proof {
            assert(r@ =~= base36(m as nat));
        }
        r
    } else {
        let mut r = base36_digits(m / 36);
        r.push(digit_char_exec((m % 36) as u8));
        proof {
            assert(r@ =~= base36(m as nat));
        }
        r
    }
}

/// Relies on String::push: appends the given character to the end of the
/// string.
#[verifier::external_body]
fn push_char(s: &mut String, c: char)
    ensures
        final(s)@ == old(s)@.push(c),
{
    s.push(c);
}

/// The five-character build number of `m` elapsed minutes.
#[verifier::loop_isolation(false)]
pub fn encode(m: u64) -> (r: String)
    ensures
        r@ == encode_spec(m as nat),
        r@.len() == 5,
{
    let digits = base36_digits(m);
    let len: usize = digits.len();
    let start: usize = if len > 5 {
        len - 5
    } else {
        0
    };
    let tail_len: usize = len - start;
    let pad_n: usize = 5 - tail_len;
    let mut r = String::new();
    let mut p: usize = 0;
    while p < pad_n
        invariant
            p <= pad_n,
            r@ == Seq::new(p as nat, |i: int| '0'),
        decreases pad_n - p,
    {
        push_char(&mut r, '0');
        proof {
            assert(r@ =~= Seq::new((p + 1) as nat, |i: int| '0'));
        }
        p += 1;
    }
    let mut i: usize = start;
    proof {
        assert(r@ =~= Seq::new(pad_n as nat, |k: int| '0') + digits@.subrange(
            start as int,
            start as int,
        ));
    }
    while i < len
        invariant
            start <= i <= len,
            r@ == Seq::new(pad_n as nat, |k: int| '0') + digits@.subrange(start as int, i as int),
        decreases len - i,
    {
        let c = digits[i];
        push_char(&mut r, c);
        proof {
            assert(r@ =~= Seq::new(pad_n as nat, |k: int| '0') + digits@.subrange(
                start as int,
                (i + 1) as int,
            ));
        }
        i += 1;
    }
    proof {
        lemma_base36_well_formed(m as nat);
        assert(digits@.subrange(start as int, len as int) =~= last5(base36(m as nat)));
        assert(r@ =~= encode_spec(m as nat));
    }
    r
}

/// A decimal digit character.
pub open spec fn is_dec_digit(c: char) -> bool {
    48 <= c as u32 <= 57
}

/// Every character of `s` is a decimal digit.
pub open spec fn all_dec_digits(s: Seq<char>) -> bool {
    forall|i: int| 0 <= i < s.len() ==> is_dec_digit(s[i])
}

/// The value of a sequence of decimal digits, most-significant first.
pub open spec fn dec_value(s: Seq<char>) -> nat
    recommends
        all_dec_digits(s),
    decreases s.len(),
{
    if s.len() == 0 {
        0
    } else {
        (dec_value(s.drop_last()) * 10 + (s.last() as u32 - 48)) as nat
    }
}

/// The digit part of an elapsed-minutes source text: everything after an
/// optional leading `+`.
pub open spec fn u64_src_body(s: Seq<char>) -> Seq<char> {
    if s.len() > 0 && s[0] == '+' {
        s.drop_first()
    } else {
        s
    }
}

/// Whether `s` is a well-formed non-negative integer source: at least one
/// digit after the optional sign, digits only, and a value that fits in 64
/// bits.
pub open spec fn is_u64_src(s: Seq<char>) -> bool {
    let b = u64_src_body(s);
    b.len() > 0 && all_dec_digits(b) && dec_value(b) <= u64::MAX
}

/// The value a well-formed source text denotes.
pub open spec fn u64_src_value(s: Seq<char>) -> nat {
    dec_value(u64_src_body(s))
}

proof fn lemma_dec_value_drop_le(s: Seq<char>)
    requires
        s.len() > 0,
        all_dec_digits(s),
    ensures
        dec_value(s.drop_last()) <= dec_value(s),
{
    assert(is_dec_digit(s.last()));
}

proof fn lemma_dec_value_take_le(s: Seq<char>, k: int)
    requires
        0 <= k <= s.len(),
        all_dec_digits(s),
    ensures
        dec_value(s.take(k)) <= dec_value(s),
    decreases s.len() - k,
{
    if k == s.len() {
        assert(s.take(k) =~= s);
    } else {
        lemma_dec_value_drop_le(s);
        assert(all_dec_digits(s.drop_last()));
        assert(s.drop_last().take(k) =~= s.take(k));
        lemma_dec_value_take_le(s.drop_last(), k);
    }
}

/// Parses a non-negative 64-bit integer exactly as the standard decimal
/// grammar reads one: an optional leading `+`, then one or more decimal
/// digits, rejecting values that overflow 64 bits.
pub fn parse_u64(s: &str) -> (r: Option<u64>)
    ensures
        r == (if is_u64_src(s@) {
            Some(u64_src_value(s@) as u64)
        } else {
            None::<u64>
        }),
{
    let n: usize = s.unicode_len();
    let start: usize = if n > 0 && s.get_char(0) == '+' {
        1
    } else {
        0
    };
    let ghost body = u64_src_body(s@);
    proof {
        assert(body =~= s@.subrange(start as int, n as int));
    }
    if n == start {
        return None;
    }
    let mut v: u64 = 0;
    let mut i: usize = start;
    while i < n
        invariant
            start <= i <= n,
            n == s@.len(),
            start == 1 ==> s@.len() > 0 && s@[0] == '+',
            start <= 1,
            body == u64_src_body(s@),
            body =~= s@.subrange(start as int, n as int),
            all_dec_digits(body.take(i - start)),
            v == dec_value(body.take(i - start)),
        decreases n - i,
    {
        let c = s.get_char(i);
        let u: u32 = c as u32;
        let ghost j: int = i - start;
        proof {
            assert(body[j] == s@[i as int]);
        }
        if u < 48 || u > 57 {
            proof {
                assert(!is_dec_digit(body[j]));
                assert(!all_dec_digits(body));
            }
            return None;
        }
        let d: u64 = (u - 48) as u64;
        proof {
            assert(body.take(j + 1).drop_last() =~= body.take(j));
            assert(body.take(j + 1).last() == body[j]);
            assert(dec_value(body.take(j + 1)) == dec_value(body.take(j)) * 10 + (body[j] as u32
                - 48));
            assert(all_dec_digits(body.take(j + 1)));
        }
        let v10: u64 = match v.checked_mul(10) {
            Some(x) => x,
            None => {
                proof {
                    assert(dec_value(body.take(j + 1)) > u64::MAX);
                    if all_dec_digits(body) {
                        lemma_dec_value_take_le(body, j + 1);
                    }
                }
                return None;
            },
        };
        let vn: u64 = match v10.checked_add(d) {
            Some(x) => x,
            None => {
                proof {
                    assert(dec_value(body.take(j + 1)) > u64::MAX);
                    if all_dec_digits(body) {
                        lemma_dec_value_take_le(body, j + 1);
                    }
                }
                return None;
            },
        };
        v = vn;
        i += 1;
    }
    proof {
        assert(body.take(n - start) =~= body);
    }
    Some(v)
}

/// The build number read from raw elapsed-minutes text: the five-character
/// encoding of the parsed count, or the sentinel `00000` when the text is
/// not a non-negative integer. Never fails.
pub fn build_number_from_minutes(minutes_str: &str) -> (r: String)
    ensures
        is_u64_src(minutes_str@) ==> r@ == encode_spec(u64_src_value(minutes_str@)),
        !is_u64_src(minutes_str@) ==> r@ == seq!['0', '0', '0', '0', '0'],
        r@.len() == 5,
{
    match parse_u64(minutes_str) {
        Some(m) => encode(m),
        None => {
            let r = String::from_str("00000");
            proof {
                reveal_strlit("00000");
                assert(r@ =~= seq!['0', '0', '0', '0', '0']);
            }
            r
        },
    }
}

} // verus!
