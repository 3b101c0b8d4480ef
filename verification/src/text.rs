//! Character-level primitives the cell codec is built from: the whitespace
//! trim used on cell text, the `"-"` sentinel test, prefix tests, the decimal
//! grammar shared by every numeric cell (optional sign, digits, overflow is a
//! parse failure), and the comma split / join used by specialization tags.

use vstd::prelude::*;
use vstd::string::*;

verus! {

/// The Unicode white-space set, as `str::trim` sees it.
pub open spec fn is_ws_char(c: char) -> bool {
    let u = c as u32;
    u == 0x20 || (0x09 <= u && u <= 0x0D) || u == 0x85 || u == 0xA0 || u == 0x1680
        || (0x2000 <= u && u <= 0x200A) || u == 0x2028 || u == 0x2029 || u == 0x202F
        || u == 0x205F || u == 0x3000
}

fn ws_char(c: char) -> (r: bool)
    ensures
        r == is_ws_char(c),
{
    let u = c as u32;
    u == 0x20 || (0x09 <= u && u <= 0x0D) || u == 0x85 || u == 0xA0 || u == 0x1680
        || (0x2000 <= u && u <= 0x200A) || u == 0x2028 || u == 0x2029 || u == 0x202F
        || u == 0x205F || u == 0x3000
}

pub open spec fn trim_start_spec(s: Seq<char>) -> Seq<char>
    decreases s.len(),
{
    if s.len() > 0 && is_ws_char(s[0]) {
        trim_start_spec(s.drop_first())
    } else {
        s
    }
}

pub open spec fn trim_end_spec(s: Seq<char>) -> Seq<char>
    decreases s.len(),
{
    if s.len() > 0 && is_ws_char(s.last()) {
        trim_end_spec(s.drop_last())
    } else {
        s
    }
}

/// What a cell's text becomes under `str::trim`.
pub open spec fn trim_spec(s: Seq<char>) -> Seq<char> {
    trim_end_spec(trim_start_spec(s))
}

proof fn lemma_trim_start_at(s: Seq<char>, i: int)
    requires
        0 <= i <= s.len(),
        forall|k: int| 0 <= k < i ==> is_ws_char(s[k]),
        i < s.len() ==> !is_ws_char(s[i]),
    ensures
        trim_start_spec(s) == s.skip(i),
    decreases i,
{
    if i == 0 {
        assert(s.skip(0) =~= s);
    } else {
        assert(is_ws_char(s[0]));
        lemma_trim_start_at(s.drop_first(), i - 1);
        assert(s.drop_first().skip(i - 1) =~= s.skip(i));
    }
}

proof fn lemma_trim_end_at(s: Seq<char>, j: int)
    requires
        0 <= j <= s.len(),
        forall|k: int| j <= k < s.len() ==> is_ws_char(s[k]),
        j > 0 ==> !is_ws_char(s[j - 1]),
    ensures
        trim_end_spec(s) == s.take(j),
    decreases s.len() - j,
{
    if j == s.len() {
        assert(s.take(j) =~= s);
    } else {
        assert(is_ws_char(s.last()));
        lemma_trim_end_at(s.drop_last(), j);
        assert(s.drop_last().take(j) =~= s.take(j));
    }
}

/// `str::trim`, proved against `trim_spec`.
pub fn trim_str(s: &str) -> (r: String)
    ensures
        r@ == trim_spec(s@),
{
    let n = s.unicode_len();
    let mut i: usize = 0;
    while i < n
        invariant
            i <= n,
            n == s@.len(),
            forall|k: int| 0 <= k < i ==> is_ws_char(s@[k]),
        ensures
            i <= n,
            n == s@.len(),
            forall|k: int| 0 <= k < i ==> is_ws_char(s@[k]),
            i < n ==> !is_ws_char(s@[i as int]),
        decreases n - i,
    {
        if !ws_char(s.get_char(i)) {
            break;
        }
        i += 1;
    }
    let mut j: usize = n;
    while j > i
        invariant
            i <= j <= n,
            n == s@.len(),
            forall|k: int| j <= k < n ==> is_ws_char(s@[k]),
        ensures
            i <= j <= n,
            n == s@.len(),
            forall|k: int| j <= k < n ==> is_ws_char(s@[k]),
            j > i ==> !is_ws_char(s@[j - 1]),
        decreases j,
    {
        if !ws_char(s.get_char(j - 1)) {
            break;
        }
        j -= 1;
    }
    let sub = s.substring_char(i, j);
    proof {
        lemma_trim_start_at(s@, i as int);
        if j == i {
            lemma_trim_end_at(s@.skip(i as int), 0);
        } else {
            lemma_trim_end_at(s@.skip(i as int), j - i);
        }
        assert(s@.skip(i as int).take(j - i) =~= s@.subrange(i as int, j as int));
    }
    sub.to_owned()
}

/// The store's "no value" sentinel, the single character `-`.
pub open spec fn sentinel_seq() -> Seq<char> {
    seq!['-']
}

/// Tests whether a cell holds exactly the sentinel `"-"`.
pub fn is_sentinel(s: &str) -> (r: bool)
    ensures
        r == (s@ == sentinel_seq()),
{
    let r = s.unicode_len() == 1 && s.get_char(0) == '-';
    proof {
        if r {
            assert(s@ =~= sentinel_seq());
        }
    }
    r
}

/// `p` is a prefix of `s`.
pub open spec fn starts_with_spec(s: Seq<char>, p: Seq<char>) -> bool {
    s.len() >= p.len() && s.take(p.len() as int) == p
}

pub fn starts_with_str(s: &str, p: &str) -> (r: bool)
    ensures
        r == starts_with_spec(s@, p@),
{
    let n = s.unicode_len();
    let m = p.unicode_len();
    if n < m {
        return false;
    }
    let mut i: usize = 0;
    while i < m
        invariant
            i <= m,
            m <= n,
            n == s@.len(),
            m == p@.len(),
            forall|k: int| 0 <= k < i ==> s@[k] == p@[k],
        ensures
            i <= m,
            m <= n,
            n == s@.len(),
            m == p@.len(),
            forall|k: int| 0 <= k < i ==> s@[k] == p@[k],
            i < m ==> s@[i as int] != p@[i as int],
        decreases m - i,
    {
        if s.get_char(i) != p.get_char(i) {
            break;
        }
        i += 1;
    }
    if i == m {
        proof {
            assert(s@.take(m as int) =~= p@);
        }
        true
    } else {
        proof {
            assert(s@.take(m as int) != p@) by {
                assert(s@.take(m as int)[i as int] != p@[i as int]);
            }
        }
        false
    }
}

/// An ASCII decimal digit.
pub open spec fn is_digit_char(c: char) -> bool {
    0x30 <= c as u32 && c as u32 <= 0x39
}

pub open spec fn digit_val(c: char) -> int {
    c as u32 - 0x30
}

pub open spec fn all_digit_chars(s: Seq<char>) -> bool {
    forall|i: int| 0 <= i < s.len() ==> is_digit_char(s[i])
}

/// The value of a digit string, most significant digit first.
pub open spec fn digits_val(s: Seq<char>) -> int
    decreases s.len(),
{
    if s.len() == 0 {
        0
    } else {
        10 * digits_val(s.drop_last()) + digit_val(s.last())
    }
}

/// The grammar of `u8::from_str` and friends: an optional leading `+`,
/// then one or more ASCII digits.
pub open spec fn parse_uint_spec(s: Seq<char>) -> Option<int> {
    let body = if s.len() > 0 && s[0] == '+' {
        s.drop_first()
    } else {
        s
    };
    if body.len() > 0 && all_digit_chars(body) {
        Some(digits_val(body))
    } else {
        None
    }
}

/// The grammar of the signed `from_str` impls: an optional `+` or `-`,
/// then one or more ASCII digits.
pub open spec fn parse_int_spec(s: Seq<char>) -> Option<int> {
    if s.len() > 0 && s[0] == '-' {
        let body = s.drop_first();
        if body.len() > 0 && all_digit_chars(body) {
            Some(-digits_val(body))
        } else {
            None
        }
    } else {
        parse_uint_spec(s)
    }
}

pub open spec fn parse_u8_spec(s: Seq<char>) -> Option<u8> {
    match parse_uint_spec(s) {
        Some(v) => if v <= u8::MAX as int {
            Some(v as u8)
        } else {
            None
        },
        None => None,
    }
}

pub open spec fn parse_u16_spec(s: Seq<char>) -> Option<u16> {
    match parse_uint_spec(s) {
        Some(v) => if v <= u16::MAX as int {
            Some(v as u16)
        } else {
            None
        },
        None => None,
    }
}

pub open spec fn parse_i8_spec(s: Seq<char>) -> Option<i8> {
    match parse_int_spec(s) {
        Some(v) => if i8::MIN as int <= v && v <= i8::MAX as int {
            Some(v as i8)
        } else {
            None
        },
        None => None,
    }
}

pub open spec fn parse_i16_spec(s: Seq<char>) -> Option<i16> {
    match parse_int_spec(s) {
        Some(v) => if i16::MIN as int <= v && v <= i16::MAX as int {
            Some(v as i16)
        } else {
            None
        },
        None => None,
    }
}

/// "Default on malformed input": a scalar cell that does not parse yields
/// the type's zero, never an error.
pub open spec fn parse_u8_or_zero(s: Seq<char>) -> u8 {
    match parse_u8_spec(s) {
        Some(v) => v,
        None => 0,
    }
}

pub open spec fn parse_u16_or_zero(s: Seq<char>) -> u16 {
    match parse_u16_spec(s) {
        Some(v) => v,
        None => 0,
    }
}

pub open spec fn parse_i8_or_zero(s: Seq<char>) -> i8 {
    match parse_i8_spec(s) {
        Some(v) => v,
        None => 0,
    }
}

pub open spec fn parse_i16_or_zero(s: Seq<char>) -> i16 {
    match parse_i16_spec(s) {
        Some(v) => v,
        None => 0,
    }
}

/// Scans `s` from `start`; `None` unless the rest is one or more digits.
/// A value above 99999 is reported as exactly 100000, which is enough to
/// decide every bounds check this crate performs.
fn digits_value_capped(s: &str, start: usize) -> (r: Option<u32>)
    requires
        start <= s@.len(),
    ensures
        ({
            let body = s@.skip(start as int);
            match r {
                None => !(body.len() > 0 && all_digit_chars(body)),
                Some(v) => body.len() > 0 && all_digit_chars(body) && (if digits_val(body)
                    <= 99999 {
                    v == digits_val(body)
                } else {
                    v == 100000
                }),
            }
        }),
{
    let n = s.unicode_len();
    if start == n {
        return None;
    }
    let mut i: usize = start;
    let mut acc: u32 = 0;
    while i < n
        invariant
            start <= i <= n,
            n == s@.len(),
            all_digit_chars(s@.subrange(start as int, i as int)),
            acc <= 100000,
            digits_val(s@.subrange(start as int, i as int)) <= 99999 ==> acc == digits_val(
                s@.subrange(start as int, i as int),
            ),
            digits_val(s@.subrange(start as int, i as int)) > 99999 ==> acc == 100000,
            digits_val(s@.subrange(start as int, i as int)) >= 0,
        decreases n - i,
    {
        let c = s.get_char(i);
        let u = c as u32;
        if !(0x30 <= u && u <= 0x39) {
            proof {
                assert(!is_digit_char(s@.skip(start as int)[i - start]));
            }
            return None;
        }
        let d = u - 0x30;
        let ghost pre = s@.subrange(start as int, i as int);
        let ghost post = s@.subrange(start as int, i as int + 1);
        proof {
            assert(post.drop_last() =~= pre);
            assert(post.last() == s@[i as int]);
        }
        if acc >= 100000 {
            acc = 100000;
        } else {
            acc = acc * 10 + d;
            if acc > 99999 {
                acc = 100000;
            }
        }
        i += 1;
    }
    proof {
        assert(s@.subrange(start as int, n as int) =~= s@.skip(start as int));
    }
    Some(acc)
}

/// `u8::from_str` with the decoder's default-to-zero policy.
pub fn parse_u8_or_default(s: &str) -> (r: u8)
    ensures
        r == parse_u8_or_zero(s@),
{
    let n = s.unicode_len();
    let start: usize = if n > 0 && s.get_char(0) as u32 == 0x2B {
        1
    } else {
        0
    };
    proof {
        if start == 1 {
            assert(s@[0] == '+');
            assert(s@.skip(1) =~= s@.drop_first());
        } else {
            assert(s@.skip(0) =~= s@);
        }
    }
    match digits_value_capped(s, start) {
        Some(v) => if v <= 255 {
            v as u8
        } else {
            0
        },
        None => 0,
    }
}

/// `u16::from_str` with the decoder's default-to-zero policy.
pub fn parse_u16_or_default(s: &str) -> (r: u16)
    ensures
        r == parse_u16_or_zero(s@),
{
    let n = s.unicode_len();
    let start: usize = if n > 0 && s.get_char(0) as u32 == 0x2B {
        1
    } else {
        0
    };
    proof {
        if start == 1 {
            assert(s@[0] == '+');
            assert(s@.skip(1) =~= s@.drop_first());
        } else {
            assert(s@.skip(0) =~= s@);
        }
    }
    match digits_value_capped(s, start) {
        Some(v) => if v <= 65535 {
            v as u16
        } else {
            0
        },
        None => 0,
    }
}

/// `i8::from_str` with the decoder's default-to-zero policy.
pub fn parse_i8_or_default(s: &str) -> (r: i8)
    ensures
        r == parse_i8_or_zero(s@),
{
    let n = s.unicode_len();
    if n > 0 && s.get_char(0) as u32 == 0x2D {
        proof {
            assert(s@[0] == '-');
            assert(s@.skip(1) =~= s@.drop_first());
        }
        match digits_value_capped(s, 1) {
            Some(v) => if v <= 127 {
                -(v as i8)
            } else if v == 128 {
                i8::MIN
            } else {
                0
            },
            None => 0,
        }
    } else {
        let start: usize = if n > 0 && s.get_char(0) as u32 == 0x2B {
            1
        } else {
            0
        };
        proof {
            if start == 1 {
                assert(s@[0] == '+');
                assert(s@.skip(1) =~= s@.drop_first());
            } else {
                assert(s@.skip(0) =~= s@);
            }
        }
        match digits_value_capped(s, start) {
            Some(v) => if v <= 127 {
                v as i8
            } else {
                0
            },
            None => 0,
        }
    }
}

/// `i16::from_str` with the decoder's default-to-zero policy.
pub fn parse_i16_or_default(s: &str) -> (r: i16)
    ensures
        r == parse_i16_or_zero(s@),
{
    let n = s.unicode_len();
    if n > 0 && s.get_char(0) as u32 == 0x2D {
        proof {
            assert(s@[0] == '-');
            assert(s@.skip(1) =~= s@.drop_first());
        }
        match digits_value_capped(s, 1) {
            Some(v) => if v <= 32767 {
                -(v as i16)
            } else if v == 32768 {
                i16::MIN
            } else {
                0
            },
            None => 0,
        }
    } else {
        let start: usize = if n > 0 && s.get_char(0) as u32 == 0x2B {
            1
        } else {
            0
        };
        proof {
            if start == 1 {
                assert(s@[0] == '+');
                assert(s@.skip(1) =~= s@.drop_first());
            } else {
                assert(s@.skip(0) =~= s@);
            }
        }
        match digits_value_capped(s, start) {
            Some(v) => if v <= 32767 {
                v as i16
            } else {
                0
            },
            None => 0,
        }
    }
}

/// The digit character for a value 0..9.
pub open spec fn digit_char(d: int) -> char {
    if d == 0 {
        '0'
    } else if d == 1 {
        '1'
    } else if d == 2 {
        '2'
    } else if d == 3 {
        '3'
    } else if d == 4 {
        '4'
    } else if d == 5 {
        '5'
    } else if d == 6 {
        '6'
    } else if d == 7 {
        '7'
    } else if d == 8 {
        '8'
    } else {
        '9'
    }
}

/// The canonical decimal text of a `u8`, as `u8::to_string` prints it.
pub open spec fn u8_dec_spec(n: u8) -> Seq<char> {
    if n < 10 {
        seq![digit_char(n as int)]
    } else if n < 100 {
        seq![digit_char(n as int / 10), digit_char(n as int % 10)]
    } else {
        seq![digit_char(n as int / 100), digit_char((n as int / 10) % 10), digit_char(n as int % 10)]
    }
}

fn digit_str(d: u8) -> (r: &'static str)
    requires
        d < 10,
    ensures
        r@ == seq![digit_char(d as int)],
{
    proof {
        reveal_strlit("0");
        reveal_strlit("1");
        reveal_strlit("2");
        reveal_strlit("3");
        reveal_strlit("4");
        reveal_strlit("5");
        reveal_strlit("6");
        reveal_strlit("7");
        reveal_strlit("8");
        reveal_strlit("9");
    }
    match d {
        0 => "0",
        1 => "1",
        2 => "2",
        3 => "3",
        4 => "4",
        5 => "5",
        6 => "6",
        7 => "7",
        8 => "8",
        _ => "9",
    }
}

/// `u8::to_string`, proved against `u8_dec_spec`.
pub fn u8_to_string(n: u8) -> (r: String)
    ensures
        r@ == u8_dec_spec(n),
{
    let mut r = String::new();
    if n >= 100 {
        r.append(digit_str(n / 100));
        r.append(digit_str((n / 10) % 10));
        r.append(digit_str(n % 10));
        proof {
            assert(r@ =~= u8_dec_spec(n));
        }
    } else if n >= 10 {
        r.append(digit_str(n / 10));
        r.append(digit_str(n % 10));
        proof {
            assert(n as int / 10 == n / 10);
            assert(r@ =~= u8_dec_spec(n));
        }
    } else {
        r.append(digit_str(n));
        proof {
            assert(r@ =~= u8_dec_spec(n));
        }
    }
    r
}

/// The canonical decimal text of a `u8` is plain digits, carries its value,
/// and starts with neither sign character.
pub proof fn lemma_u8_dec_digits(n: u8)
    ensures
        u8_dec_spec(n).len() > 0,
        all_digit_chars(u8_dec_spec(n)),
        digits_val(u8_dec_spec(n)) == n,
        u8_dec_spec(n)[0] != '+',
        u8_dec_spec(n)[0] != '-',
{
    reveal_with_fuel(digits_val, 4);
    let s = u8_dec_spec(n);
    let e = Seq::<char>::empty();
    assert(digits_val(e) == 0);
    if n < 10 {
        assert(s.drop_last() =~= e);
        assert(digits_val(s) == 10 * digits_val(e) + digit_val(s.last()));
    } else if n < 100 {
        let s1 = seq![digit_char(n as int / 10)];
        assert(s.drop_last() =~= s1);
        assert(s1.drop_last() =~= e);
        assert(digits_val(s1) == 10 * digits_val(e) + digit_val(s1.last()));
        assert(digits_val(s) == 10 * digits_val(s1) + digit_val(s.last()));
        assert(10 * (n as int / 10) + n as int % 10 == n as int);
    } else {
        let s2 = seq![digit_char(n as int / 100), digit_char((n as int / 10) % 10)];
        let s1 = seq![digit_char(n as int / 100)];
        assert(s.drop_last() =~= s2);
        assert(s2.drop_last() =~= s1);
        assert(s1.drop_last() =~= e);
        assert(digits_val(s1) == 10 * digits_val(e) + digit_val(s1.last()));
        assert(digits_val(s2) == 10 * digits_val(s1) + digit_val(s2.last()));
        assert(digits_val(s) == 10 * digits_val(s2) + digit_val(s.last()));
        assert(n as int / 10 / 10 == n as int / 100) by (nonlinear_arith);
        assert(10 * (n as int / 10) + n as int % 10 == n as int);
        assert(10 * (n as int / 100) + (n as int / 10) % 10 == n as int / 10);
    }
}

/// Parsing the canonical decimal text of a `u8` gives back the value.
pub proof fn lemma_parse_u8_round_trip(n: u8)
    ensures
        parse_u8_spec(u8_dec_spec(n)) == Some(n),
{
    lemma_u8_dec_digits(n);
}

/// The sentinel is not a number: it parses to `None` under every numeric
/// grammar of this module.
pub proof fn lemma_sentinel_parses_to_none()
    ensures
        parse_u8_spec(sentinel_seq()) is None,
        parse_u16_spec(sentinel_seq()) is None,
        parse_i8_spec(sentinel_seq()) is None,
        parse_i16_spec(sentinel_seq()) is None,
{
    let s = sentinel_seq();
    assert(s.drop_first().len() == 0);
    assert(!is_digit_char(s[0]));
}

/// Whole-string equality of two `&str`.
pub fn str_eq(s: &str, t: &str) -> (r: bool)
    ensures
        r == (s@ == t@),
{
    let n = s.unicode_len();
    let m = t.unicode_len();
    if n != m {
        proof {
            assert(s@ != t@) by {
                assert(s@.len() != t@.len());
            }
        }
        return false;
    }
    let r = starts_with_str(s, t);
    proof {
        if r {
            assert(s@.take(m as int) =~= s@);
        } else {
            assert(s@ != t@) by {
                if s@ == t@ {
                    assert(s@.take(m as int) =~= t@);
                }
            }
        }
    }
    r
}

/// Tests whether a cell holds exactly the one character `c`.
pub fn eq_char(s: &str, c: char) -> (r: bool)
    ensures
        r == (s@ == seq![c]),
{
    let r = s.unicode_len() == 1 && s.get_char(0) == c;
    proof {
        if r {
            assert(s@ =~= seq![c]);
        }
    }
    r
}

/// The index of the first comma of `s`, or `s.len()` if there is none.
pub open spec fn first_comma(s: Seq<char>) -> int
    decreases s.len(),
{
    if s.len() == 0 {
        0
    } else if s[0] == ',' {
        0
    } else {
        1 + first_comma(s.drop_first())
    }
}

proof fn lemma_first_comma_at(s: Seq<char>, i: int)
    requires
        0 <= i <= s.len(),
        forall|k: int| 0 <= k < i ==> s[k] != ',',
        i < s.len() ==> s[i] == ',',
    ensures
        first_comma(s) == i,
    decreases i,
{
    if i == 0 {
    } else {
        lemma_first_comma_at(s.drop_first(), i - 1);
    }
}

/// What `str::split(',')` yields: the (possibly empty) segments between
/// commas; an empty string yields one empty segment.
pub open spec fn split_comma_spec(s: Seq<char>) -> Seq<Seq<char>>
    decreases s.len(),
{
    let i = first_comma(s);
    if 0 <= i < s.len() {
        seq![s.take(i)] + split_comma_spec(s.skip(i + 1))
    } else {
        seq![s]
    }
}

/// `str::split(',')` collected into a vector, proved against
/// `split_comma_spec`.
pub fn split_commas(s: &str) -> (r: Vec<String>)
    ensures
        r.deep_view() == split_comma_spec(s@),
    decreases s@.len(),
{
    let n = s.unicode_len();
    let mut i: usize = 0;
    while i < n
        invariant
            i <= n,
            n == s@.len(),
            forall|k: int| 0 <= k < i ==> s@[k] != ',',
        ensures
            i <= n,
            n == s@.len(),
            forall|k: int| 0 <= k < i ==> s@[k] != ',',
            i < n ==> s@[i as int] == ',',
        decreases n - i,
    {
        if s.get_char(i) == ',' {
            break;
        }
        i += 1;
    }
    proof {
        lemma_first_comma_at(s@, i as int);
    }
    if i == n {
        let mut r: Vec<String> = Vec::new();
        r.push(s.to_owned());
        proof {
            assert(r.deep_view() =~~= seq![s@]);
        }
        r
    } else {
        let head = s.substring_char(0, i).to_owned();
        let rest = s.substring_char(i + 1, n);
        proof {
            assert(rest@ == s@.skip(i as int + 1)) by {
                assert(s@.subrange(i as int + 1, n as int) =~= s@.skip(i as int + 1));
            }
        }
        let mut tail = split_commas(rest);
        let mut r: Vec<String> = Vec::new();
        r.push(head);
        r.append(&mut tail);
        proof {
            assert(head@ == s@.take(i as int)) by {
                assert(s@.subrange(0, i as int) =~= s@.take(i as int));
            }
            assert(r.deep_view() =~~= seq![s@.take(i as int)] + split_comma_spec(
                s@.skip(i as int + 1),
            ));
        }
        r
    }
}

/// The tag list joined with `", "`, as the encoder writes it back.
pub open spec fn join_comma_space_spec(parts: Seq<Seq<char>>) -> Seq<char>
    decreases parts.len(),
{
    if parts.len() == 0 {
        Seq::empty()
    } else if parts.len() == 1 {
        parts[0]
    } else {
        join_comma_space_spec(parts.drop_last()) + ", "@ + parts.last()
    }
}

/// Joins strings with `", "`, proved against `join_comma_space_spec`.
pub fn join_comma_space(parts: &Vec<String>) -> (r: String)
    ensures
        r@ == join_comma_space_spec(parts.deep_view()),
{
    let mut r = String::new();
    let mut i: usize = 0;
    while i < parts.len()
        invariant
            i <= parts.len(),
            r@ == join_comma_space_spec(parts.deep_view().take(i as int)),
        decreases parts.len() - i,
    {
        if i > 0 {
            r.append(", ");
        }
        r.append(parts[i].as_str());
        proof {
            let dv = parts.deep_view();
            assert(dv.take(i + 1).drop_last() =~= dv.take(i as int));
            assert(dv.take(i + 1).last() == dv[i as int]);
            assert(dv[i as int] == parts@[i as int]@);
            if i == 0 {
                assert(r@ == join_comma_space_spec(dv.take(i + 1)));
            } else {
                assert(r@ == join_comma_space_spec(dv.take(i + 1)));
            }
        }
        i += 1;
    }
    proof {
        assert(parts.deep_view().take(parts@.len() as int) =~= parts.deep_view());
    }
    r
}

/// `u8::from_str` as an option: `None` exactly where parsing fails.
pub fn parse_u8_opt(s: &str) -> (r: Option<u8>)
    ensures
        r == parse_u8_spec(s@),
{
    let n = s.unicode_len();
    let start: usize = if n > 0 && s.get_char(0) as u32 == 0x2B {
        1
    } else {
        0
    };
    proof {
        if start == 1 {
            assert(s@[0] == '+');
            assert(s@.skip(1) =~= s@.drop_first());
        } else {
            assert(s@.skip(0) =~= s@);
        }
    }
    match digits_value_capped(s, start) {
        Some(v) => if v <= 255 {
            Some(v as u8)
        } else {
            None
        },
        None => None,
    }
}

} // verus!
