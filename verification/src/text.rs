//! Shared text helpers: the two trusted std string calls the library leans
//! on, and verified decimal formatting and parsing.

use vstd::prelude::*;

verus! {

/// What `str::to_lowercase` returns: the result depends on the characters
/// alone.
pub uninterp spec fn lower_of(s: Seq<char>) -> Seq<char>;

/// What `str::trim` returns: the result depends on the characters alone.
pub uninterp spec fn trim_of(s: Seq<char>) -> Seq<char>;

/// Relies on `str::to_lowercase`: the result depends on the characters alone.
#[verifier::external_body]
pub fn lowercase(s: &str) -> (r: String)
    ensures
        r@ == lower_of(s@),
{
    s.to_lowercase()
}

/// Relies on `str::trim`: the result depends on the characters alone.
#[verifier::external_body]
pub fn trim_text(s: &str) -> (r: String)
    ensures
        r@ == trim_of(s@),
{
    s.trim().to_string()
}

/// Relies on `String::push`: appends exactly the given character.
#[verifier::external_body]
pub fn push_char(s: &mut String, c: char)
    ensures
        final(s)@ == old(s)@.push(c),
{
    s.push(c);
}

/// The character for one decimal digit.
pub open spec fn digit_char(d: nat) -> char {
    ((d + 48) as u8) as char
}

/// The decimal digits of `n`, most significant first.
pub open spec fn spec_digits(n: nat) -> Seq<char>
    decreases n,
{
    if n < 10 {
        seq![digit_char(n)]
    } else {
        spec_digits(n / 10).push(digit_char(n % 10))
    }
}

/// Renders `n` in decimal.
pub fn u64_to_string(n: u64) -> (r: String)
    ensures
        r@ == spec_digits(n as nat),
    decreases n,
{
    if n < 10 {
        let mut s = String::new();
        push_char(&mut s, ((n as u8) + 48) as char);
        assert(s@ =~= spec_digits(n as nat));
        s
    } else {
        let mut s = u64_to_string(n / 10);
        push_char(&mut s, (((n % 10) as u8) + 48) as char);
        assert(s@ =~= spec_digits(n as nat));
        s
    }
}

/// The decimal rendering of `n`, with a leading minus sign when negative.
pub open spec fn spec_decimal_i64(n: int) -> Seq<char> {
    if n >= 0 {
        spec_digits(n as nat)
    } else {
        seq!['-'] + spec_digits((-n) as nat)
    }
}

/// Renders `n` in decimal, with a leading minus sign when negative.
pub fn i64_to_string(n: i64) -> (r: String)
    ensures
        r@ == spec_decimal_i64(n as int),
{
    if n >= 0 {
        u64_to_string(n as u64)
    } else {
        let magnitude: u64 = if n == i64::MIN {
            9223372036854775808u64
        } else {
            (-n) as u64
        };
        let mut s = String::new();
        push_char(&mut s, '-');
        let digits = u64_to_string(magnitude);
        s.append(digits.as_str());
        assert(s@ =~= spec_decimal_i64(n as int));
        s
    }
}

/// The character for one lowercase hexadecimal digit.
pub open spec fn hex_digit(d: nat) -> char {
    if d < 10 {
        digit_char(d)
    } else {
        (((d - 10) + 97) as u8) as char
    }
}

/// How one character is written inside a JSON string literal.
pub open spec fn escape_char(c: char) -> Seq<char> {
    if c == '"' {
        seq!['\\', '"']
    } else if c == '\\' {
        seq!['\\', '\\']
    } else if c == '\n' {
        seq!['\\', 'n']
    } else if c == '\r' {
        seq!['\\', 'r']
    } else if c == '\t' {
        seq!['\\', 't']
    } else if (c as nat) < 32 {
        seq!['\\', 'u', '0', '0', hex_digit((c as nat) / 16), hex_digit((c as nat) % 16)]
    } else {
        seq![c]
    }
}

/// The body of a JSON string literal holding exactly the characters of `s`.
pub open spec fn escaped(s: Seq<char>) -> Seq<char>
    decreases s.len(),
{
    if s.len() == 0 {
        Seq::empty()
    } else {
        escaped(s.drop_last()) + escape_char(s.last())
    }
}

/// Escapes `s` for use inside a JSON string literal.
pub fn json_escape(s: &str) -> (r: String)
    ensures
        r@ == escaped(s@),
{
    let len = s.unicode_len();
    let mut out = String::new();
    let mut i: usize = 0;
    while i < len
        invariant
            len == s@.len(),
            i <= len,
            out@ == escaped(s@.take(i as int)),
        decreases len - i,
    {
        let c = s.get_char(i);
        let ghost before = out@;
        if c == '"' {
            push_char(&mut out, '\\');
            push_char(&mut out, '"');
        } else if c == '\\' {
            push_char(&mut out, '\\');
            push_char(&mut out, '\\');
        } else if c == '\n' {
            push_char(&mut out, '\\');
            push_char(&mut out, 'n');
        } else if c == '\r' {
            push_char(&mut out, '\\');
            push_char(&mut out, 'r');
        } else if c == '\t' {
            push_char(&mut out, '\\');
            push_char(&mut out, 't');
        } else if (c as u32) < 32 {
            let d = c as u32;
            let hi = (d / 16) as u8;
            let lo = (d % 16) as u8;
            let hi_c = if hi < 10 {
                (hi + 48) as char
            } else {
                ((hi - 10) + 97) as char
            };
            let lo_c = if lo < 10 {
                (lo + 48) as char
            } else {
                ((lo - 10) + 97) as char
            };
            push_char(&mut out, '\\');
            push_char(&mut out, 'u');
            push_char(&mut out, '0');
            push_char(&mut out, '0');
            push_char(&mut out, hi_c);
            push_char(&mut out, lo_c);
        } else {
            push_char(&mut out, c);
        }
        proof {
            assert(out@ =~= before + escape_char(s@[i as int]));
            assert(s@.take(i + 1).drop_last() =~= s@.take(i as int));
            assert(s@.take(i + 1).last() == s@[i as int]);
            assert(out@ =~= escaped(s@.take(i + 1)));
        }
        i = i + 1;
    }
    proof {
        assert(s@.take(len as int) =~= s@);
    }
    out
}

/// The given texts joined with a newline between neighbours.
pub open spec fn joined_lines(ts: Seq<Seq<char>>) -> Seq<char>
    decreases ts.len(),
{
    if ts.len() == 0 {
        Seq::empty()
    } else if ts.len() == 1 {
        ts[0]
    } else {
        joined_lines(ts.drop_last()) + seq!['\n'] + ts.last()
    }
}

/// Joins the items with a newline between neighbours.
pub fn join_lines(items: &Vec<String>) -> (r: String)
    ensures
        r@ == joined_lines(items.deep_view()),
{
    let mut out = String::new();
    let mut i: usize = 0;
    while i < items.len()
        invariant
            i <= items@.len(),
            items.deep_view().len() == items@.len(),
            out@ == joined_lines(items.deep_view().take(i as int)),
        decreases items@.len() - i,
    {
        let ghost before = out@;
        if i > 0 {
            push_char(&mut out, '\n');
        }
        out.append(items[i].as_str());
        proof {
            let ts = items.deep_view();
            assert(ts[i as int] == items@[i as int]@);
            assert(ts.take(i + 1).drop_last() =~= ts.take(i as int));
            if i == 0 {
                assert(out@ =~= joined_lines(ts.take(i + 1)));
            } else {
                assert(out@ =~= joined_lines(ts.take(i as int)) + seq!['\n'] + ts[i as int]);
                assert(out@ =~= joined_lines(ts.take(i + 1)));
            }
        }
        i = i + 1;
    }
    proof {
        assert(items.deep_view().take(items@.len() as int) =~= items.deep_view());
    }
    out
}

/// The first `n` characters of `s`, or all of `s` when it is shorter.
pub open spec fn spec_prefix(s: Seq<char>, n: int) -> Seq<char> {
    if s.len() <= n {
        s
    } else {
        s.subrange(0, n)
    }
}

/// Takes the first `n` characters of `s`.
pub fn prefix_chars(s: &str, n: usize) -> (r: String)
    ensures
        r@ == spec_prefix(s@, n as int),
{
    let len = s.unicode_len();
    if len <= n {
        String::from_str(s)
    } else {
        String::from_str(s.substring_char(0, n))
    }
}

/// The text cut into pieces of at most `max` characters: full pieces, then
/// whatever is left.
pub open spec fn spec_chunks(s: Seq<char>, max: nat) -> Seq<Seq<char>>
    decreases s.len(),
    when max > 0
{
    if s.len() == 0 {
        Seq::empty()
    } else if s.len() <= max {
        seq![s]
    } else {
        seq![s.subrange(0, max as int)] + spec_chunks(s.skip(max as int), max)
    }
}

/// Cuts a message into pieces of at most `max` characters, so each fits the
/// relay's length cap.
pub fn split_message(s: &str, max: usize) -> (r: Vec<String>)
    requires
        max > 0,
    ensures
        r.deep_view() == spec_chunks(s@, max as nat),
    decreases s@.len(),
{
    let len = s.unicode_len();
    if len == 0 {
        let r: Vec<String> = Vec::new();
        proof {
            assert(r.deep_view() =~= spec_chunks(s@, max as nat));
        }
        r
    } else if len <= max {
        let mut r: Vec<String> = Vec::new();
        r.push(String::from_str(s));
        proof {
            assert(r.deep_view() =~= spec_chunks(s@, max as nat));
        }
        r
    } else {
        let head = String::from_str(s.substring_char(0, max));
        let tail = s.substring_char(max, len);
        proof {
            assert(tail@ =~= s@.skip(max as int));
        }
        let mut rest = split_message(tail, max);
        rest.insert(0, head);
        proof {
            assert(rest.deep_view() =~= seq![s@.subrange(0, max as int)] + spec_chunks(
                s@.skip(max as int),
                max as nat,
            ));
        }
        rest
    }
}

/// Whether `s` ends in `suffix`.
pub open spec fn spec_ends_with(s: Seq<char>, suffix: Seq<char>) -> bool {
    s.len() >= suffix.len() && s.subrange(s.len() - suffix.len(), s.len() as int) == suffix
}

/// Tests whether `s` ends in `suffix`.
pub fn ends_with(s: &str, suffix: &str) -> (r: bool)
    ensures
        r == spec_ends_with(s@, suffix@),
{
    let slen = s.unicode_len();
    let suflen = suffix.unicode_len();
    if suflen > slen {
        return false;
    }
    let start = slen - suflen;
    let mut j: usize = 0;
    while j < suflen
        invariant
            slen == s@.len(),
            suflen == suffix@.len(),
            suflen <= slen,
            start == slen - suflen,
            j <= suflen,
            forall|k: int| 0 <= k < j ==> s@[start + k] == suffix@[k],
        decreases suflen - j,
    {
        if s.get_char(start + j) != suffix.get_char(j) {
            proof {
                let tail = s@.subrange(s@.len() - suffix@.len(), s@.len() as int);
                assert(tail[j as int] == s@[start + j]);
            }
            return false;
        }
        j = j + 1;
    }
    proof {
        assert(s@.subrange(s@.len() - suffix@.len(), s@.len() as int) =~= suffix@);
    }
    true
}

/// Whether `c` is a decimal digit.
pub open spec fn is_digit(c: char) -> bool {
    '0' <= c && c <= '9'
}

/// The value of one decimal digit character.
pub open spec fn digit_val(c: char) -> nat {
    ((c as nat) - 48) as nat
}

/// Whether every character of `s` is a decimal digit.
pub open spec fn all_digits(s: Seq<char>) -> bool {
    forall|i: int| 0 <= i < s.len() ==> is_digit(#[trigger] s[i])
}

/// The number the digit characters of `s` denote.
pub open spec fn digits_value(s: Seq<char>) -> nat
    decreases s.len(),
{
    if s.len() == 0 {
        0
    } else {
        digits_value(s.drop_last()) * 10 + digit_val(s.last())
    }
}

/// What `parse_i64` accepts: an optional minus sign, then at least one
/// decimal digit, denoting a value that fits in a signed 64-bit integer.
pub open spec fn spec_parse_i64(s: Seq<char>) -> Option<int> {
    if s.len() > 0 && s[0] == '-' {
        let m = s.skip(1);
        if m.len() > 0 && all_digits(m) && digits_value(m) <= 0x8000000000000000 {
            Some(-(digits_value(m) as int))
        } else {
            None
        }
    } else {
        if s.len() > 0 && all_digits(s) && digits_value(s) <= 0x7fffffffffffffff {
            Some(digits_value(s) as int)
        } else {
            None
        }
    }
}

proof fn lemma_digits_value_grows(s: Seq<char>, j: int)
    requires
        0 <= j <= s.len(),
    ensures
        digits_value(s.take(j)) <= digits_value(s),
    decreases s.len() - j,
{
    if j == s.len() {
        assert(s.take(j) =~= s);
    } else {
        assert(s.take(j + 1).drop_last() =~= s.take(j));
        assert(digits_value(s.take(j + 1)) == digits_value(s.take(j)) * 10 + digit_val(
            s.take(j + 1).last(),
        ));
        lemma_digits_value_grows(s, j + 1);
    }
}

fn parse_digits(s: &str, from: usize, limit: u64) -> (r: Option<u64>)
    requires
        from < s@.len(),
        limit == 0x7fffffffffffffff || limit == 0x8000000000000000,
    ensures
        match r {
            Some(v) => all_digits(s@.skip(from as int)) && digits_value(s@.skip(from as int))
                == v && v <= limit,
            None => !all_digits(s@.skip(from as int)) || digits_value(s@.skip(from as int))
                > limit,
        },
{
    let ghost m = s@.skip(from as int);
    let len = s.unicode_len();
    let mut acc: u64 = 0;
    let mut i: usize = from;
    while i < len
        invariant
            len == s@.len(),
            from <= i <= len,
            m == s@.skip(from as int),
            all_digits(m.take(i - from)),
            acc == digits_value(m.take(i - from)),
            acc <= limit,
            limit == 0x7fffffffffffffff || limit == 0x8000000000000000,
        decreases len - i,
    {
        let c = s.get_char(i);
        if c < '0' || c > '9' {
            proof {
                assert(m[i - from] == s@[i as int]);
                assert(!is_digit(m[i - from]));
            }
            return None;
        }
        let d = (c as u32 as u64) - 48;
        proof {
            assert(m.take(i - from + 1).drop_last() =~= m.take(i - from));
            assert(m.take(i - from + 1).last() == s@[i as int]);
        }
        if acc > 922337203685477580 {
            proof {
                assert(digits_value(m.take(i - from + 1)) > limit);
                lemma_digits_value_grows(m, i - from + 1);
            }
            return None;
        }
        if acc == 922337203685477580 {
            let top: u64 = if limit == 0x7fffffffffffffff {
                7
            } else {
                8
            };
            if d > top {
                proof {
                    assert(digits_value(m.take(i - from + 1)) > limit);
                    lemma_digits_value_grows(m, i - from + 1);
                }
                return None;
            }
        }
        acc = acc * 10 + d;
        i = i + 1;
    }
    proof {
        assert(m.take(len - from) =~= m);
    }
    Some(acc)
}

/// Reads a decimal integer, as the chat command argument is read: an
/// optional minus sign followed by digits, rejecting anything else and
/// anything out of the 64-bit signed range.
pub fn parse_i64(s: &str) -> (r: Option<i64>)
    ensures
        match r {
            Some(v) => spec_parse_i64(s@) == Some(v as int),
            None => spec_parse_i64(s@) is None,
        },
{
    let len = s.unicode_len();
    if len == 0 {
        return None;
    }
    let first = s.get_char(0);
    if first == '-' {
        if len == 1 {
            return None;
        }
        match parse_digits(s, 1, 0x8000000000000000) {
            Some(v) => {
                if v == 0x8000000000000000 {
                    Some(i64::MIN)
                } else {
                    Some(-(v as i64))
                }
            },
            None => None,
        }
    } else {
        match parse_digits(s, 0, 0x7fffffffffffffff) {
            Some(v) => {
                proof {
                    assert(s@.skip(0) =~= s@);
                }
                Some(v as i64)
            },
            None => {
                proof {
                    assert(s@.skip(0) =~= s@);
                }
                None
            },
        }
    }
}

} // verus!
