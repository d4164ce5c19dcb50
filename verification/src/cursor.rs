use vstd::prelude::*;

use crate::hexcode::hex_char_of;
use crate::CursorError;
use vstd::string::StrSliceExecFns;
use vstd::string::StringExecFns;

verus! {

pub open spec fn is_dec_digit(c: char) -> bool {
    '0' as int <= c as int && c as int <= '9' as int
}

/// Numeric value of a decimal digit character.
pub open spec fn dec_val(c: char) -> int {
    c as int - '0' as int
}

pub open spec fn all_dec_digits(s: Seq<char>) -> bool {
    forall|i: int| 0 <= i < s.len() ==> is_dec_digit(#[trigger] s[i])
}

/// Numeric value of a digit string, most significant digit first.
pub open spec fn dec_value(s: Seq<char>) -> int
    decreases s.len(),
{
    if s.len() == 0 {
        0
    } else {
        dec_value(s.drop_last()) * 10 + dec_val(s.last())
    }
}

/// The digits of the cursor text, once an optional leading '+' is dropped.
pub open spec fn cursor_digits(s: Seq<char>) -> Seq<char> {
    if s.len() > 0 && s[0] == '+' {
        s.subrange(1, s.len() as int)
    } else {
        s
    }
}

/// What parsing the persisted cursor text yields: the stored height, where
/// the text is a plain decimal non-negative integer (an optional leading '+'
/// is accepted) whose value fits in a u64; nothing otherwise.
pub open spec fn parse_height_spec(s: Seq<char>) -> Option<u64> {
    let ds = cursor_digits(s);
    if ds.len() > 0 && all_dec_digits(ds) && dec_value(ds) <= u64::MAX {
        Some(dec_value(ds) as u64)
    } else {
        None
    }
}

proof fn lemma_dec_value_nonneg(s: Seq<char>)
    requires
        all_dec_digits(s),
    ensures
        dec_value(s) >= 0,
    decreases s.len(),
{
    if s.len() > 0 {
        assert(all_dec_digits(s.drop_last())) by {
            assert(forall|i: int|
                0 <= i < s.len() - 1 ==> s.drop_last()[i] == #[trigger] s[i]);
        }
        lemma_dec_value_nonneg(s.drop_last());
    }
}

/// The value of a digit string never falls when more digits follow.
proof fn lemma_dec_value_prefix(s: Seq<char>, i: int)
    requires
        all_dec_digits(s),
        0 <= i <= s.len(),
    ensures
        dec_value(s.subrange(0, i)) <= dec_value(s),
    decreases s.len() - i,
{
    if i == s.len() {
        assert(s.subrange(0, i) =~= s);
    } else {
        let p = s.subrange(0, i);
        let q = s.subrange(0, i + 1);
        assert(q.drop_last() =~= p);
        assert(q.last() == s[i]);
        assert(all_dec_digits(p)) by {
            assert(forall|j: int| 0 <= j < i ==> p[j] == #[trigger] s[j]);
        }
        lemma_dec_value_nonneg(p);
        assert(dec_value(q) == dec_value(p) * 10 + dec_val(s[i]));
        assert(dec_value(p) <= dec_value(q));
        lemma_dec_value_prefix(s, i + 1);
    }
}

/// Parses the persisted cursor text. Returns the stored height exactly when
/// the text is a decimal non-negative integer that fits in a u64; otherwise
/// the cursor is corrupt.
pub fn parse_height(s: &str) -> (r: Result<u64, CursorError>)
    ensures
        (parse_height_spec(s@) matches Some(h) ==> r == Ok::<u64, CursorError>(h)),
        (parse_height_spec(s@) is None ==> r == Err::<u64, CursorError>(
            CursorError::CorruptCursor,
        )),
{
    let len = s.unicode_len();
    let start: usize = if len > 0 && s.get_char(0) == '+' {
        1
    } else {
        0
    };
    let ghost ds = cursor_digits(s@);
    proof {
        assert(ds =~= s@.subrange(start as int, len as int));
    }
    if start >= len {
        return Err(CursorError::CorruptCursor);
    }
    let mut acc: u64 = 0;
    let mut i: usize = start;
    while i < len
        invariant
            start <= i <= len,
            len == s@.len(),
            start == 0 || start == 1,
            ds == cursor_digits(s@),
            ds == s@.subrange(start as int, len as int),
            all_dec_digits(s@.subrange(start as int, i as int)),
            acc == dec_value(s@.subrange(start as int, i as int)),
        decreases len - i,
    {
        let c = s.get_char(i);
        let cv = c as u32;
        let ghost pre = s@.subrange(start as int, i as int);
        let ghost cur = s@.subrange(start as int, i as int + 1);
        proof {
            assert(cur.drop_last() =~= pre);
            assert(cur.last() == s@[i as int]);
        }
        if cv < 48 || cv > 57 {
            proof {
                assert(ds[i - start] == s@[i as int]);
                assert(0 <= i - start < ds.len());
                assert(!all_dec_digits(ds)) by {
                    assert(!is_dec_digit(ds[i - start]));
                }
                assert(parse_height_spec(s@) is None);
            }
            return Err(CursorError::CorruptCursor);
        }
        let d = (cv - 48) as u64;
        proof {
            assert(all_dec_digits(cur)) by {
                assert(forall|j: int| 0 <= j < cur.len() - 1 ==> cur[j] == #[trigger] pre[j]);
            }
            assert(dec_value(cur) == acc * 10 + d);
        }
        if acc > (u64::MAX - d) / 10 {
            proof {
                vstd::arithmetic::div_mod::lemma_fundamental_div_mod(
                    (u64::MAX - d) as int,
                    10,
                );
                assert(acc * 10 + d > u64::MAX);
                if all_dec_digits(ds) {
                    assert(forall|j: int|
                        0 <= j < cur.len() ==> cur[j] == #[trigger] ds[j]);
                    assert(cur =~= ds.subrange(0, i - start + 1));
                    lemma_dec_value_prefix(ds, i - start + 1);
                    assert(dec_value(ds) > u64::MAX);
                    assert(parse_height_spec(s@) is None);
                } else {
                    assert(parse_height_spec(s@) is None);
                }
            }
            return Err(CursorError::CorruptCursor);
        }
        acc = acc * 10 + d;
        i = i + 1;
    }
    proof {
        assert(s@.subrange(start as int, i as int) =~= ds);
    }
    Ok(acc)
}

/// Decimal representation of a non-negative integer, no sign, no leading
/// zeros (except for zero itself).
pub open spec fn dec_string_of(n: int) -> Seq<char>
    decreases n,
{
    if n < 10 {
        seq![hex_char_of(n)]
    } else {
        dec_string_of(n / 10).push(hex_char_of(n % 10))
    }
}

fn digit_str(d: u64) -> (r: &'static str)
    requires
        d < 10,
    ensures
        r@ =~= seq![hex_char_of(d as int)],
{
    proof {
        reveal_strlit("0");
        reveal_strlit("1");
        reveal_strlit("2");
        reveal_strlit("3");
        reveal_strlit("4");
        reveal_strlit("5");
        reveal_strlit("6");
        reveal_strlit("7");
        reveal_strlit("8");
        reveal_strlit("9");
    }
    if d == 0 { "0" }
    else if d == 1 { "1" }
    else if d == 2 { "2" }
    else if d == 3 { "3" }
    else if d == 4 { "4" }
    else if d == 5 { "5" }
    else if d == 6 { "6" }
    else if d == 7 { "7" }
    else if d == 8 { "8" }
    else { "9" }
}

/// Renders a height as the decimal text persisted in the cursor file.
pub fn format_height(h: u64) -> (r: String)
    ensures
        r@ == dec_string_of(h as int),
    decreases h,
{
    if h < 10 {
        String::from_str(digit_str(h))
    } else {
        let mut s = format_height(h / 10);
        s.append(digit_str(h % 10));
        proof {
            assert(s@ =~= dec_string_of(h as int / 10).push(hex_char_of(h as int % 10)));
        }
        s
    }
}

proof fn lemma_dec_string_of_props(n: int)
    requires
        n >= 0,
    ensures
        dec_string_of(n).len() >= 1,
        all_dec_digits(dec_string_of(n)),
        dec_value(dec_string_of(n)) == n,
    decreases n,
{
    if n < 10 {
        let s = dec_string_of(n);
        assert(s.drop_last() =~= Seq::<char>::empty());
        assert(dec_value(Seq::<char>::empty()) == 0);
        assert(s.last() == hex_char_of(n));
        assert(dec_value(s) == dec_value(s.drop_last()) * 10 + dec_val(s.last()));
        assert(dec_val(hex_char_of(n)) == n);
    } else {
        lemma_dec_string_of_props(n / 10);
        let p = dec_string_of(n / 10);
        let s = dec_string_of(n);
        assert(s.drop_last() =~= p);
        assert(s.last() == hex_char_of(n % 10));
        assert(dec_value(s) == (n / 10) * 10 + (n % 10));
        assert((n / 10) * 10 + (n % 10) == n) by (nonlinear_arith);
        assert(all_dec_digits(s)) by {
            assert(forall|j: int| 0 <= j < s.len() - 1 ==> s[j] == #[trigger] p[j]);
            assert(is_dec_digit(s[s.len() - 1]));
        }
    }
}

/// The cursor text round-trips: parsing what `format_height` wrote yields
/// the height that was written. This is what lets the loop resume exactly
/// where a previous run left off.
pub proof fn lemma_parse_format_round_trip(h: u64)
    ensures
        parse_height_spec(dec_string_of(h as int)) == Some(h),
{
    lemma_dec_string_of_props(h as int);
    let s = dec_string_of(h as int);
    assert(is_dec_digit(s[0]));
    assert(s[0] != '+');
    assert(cursor_digits(s) == s);
}

} // verus!
