use vstd::prelude::*;
use vstd::std_specs::iter::IteratorSpec;

verus! {

/// Number of UTF-16 code units that encode `c`: two for a char outside the
/// basic multilingual plane, one otherwise.
pub open spec fn utf16_width(c: char) -> int {
    if (c as u32) < 0x10000 {
        1
    } else {
        2
    }
}

/// Number of UTF-16 code units that encode `s`.
pub open spec fn utf16_len(s: Seq<char>) -> int
    decreases s.len(),
{
    if s.len() == 0 {
        0
    } else {
        utf16_len(s.drop_last()) + utf16_width(s.last())
    }
}

/// `i` is a char position of `s` with exactly `units` code units before it.
pub open spec fn is_unit_boundary(s: Seq<char>, i: int, units: int) -> bool {
    0 <= i <= s.len() && utf16_len(s.take(i)) == units
}

/// The char position of `s` that lies `units` code units from its start, if
/// that point is not inside a char and not past the end.
pub open spec fn unit_position(s: Seq<char>, units: int) -> Option<int> {
    if exists|i: int| is_unit_boundary(s, i, units) {
        Some(choose|i: int| is_unit_boundary(s, i, units))
    } else {
        None
    }
}

/// The chars that the code-unit range `[offset, offset + length)` of `s`
/// covers; `None` when the range is negative, reaches past the end of `s`, or
/// cuts a char in two.
pub open spec fn utf16_slice(s: Seq<char>, offset: int, length: int) -> Option<Seq<char>> {
    if length < 0 {
        None
    } else {
        match (unit_position(s, offset), unit_position(s, offset + length)) {
            (Some(i), Some(j)) => Some(s.subrange(i, j)),
            _ => None,
        }
    }
}

/// `s` without the run of `/` it starts with.
pub open spec fn trim_slashes(s: Seq<char>) -> Seq<char>
    decreases s.len(),
{
    if s.len() > 0 && s[0] == '/' {
        trim_slashes(s.drop_first())
    } else {
        s
    }
}

/// Every char takes one or two code units, so a text has at least as many
/// code units as chars.
pub proof fn lemma_utf16_len_nonneg(s: Seq<char>)
    ensures
        utf16_len(s) >= s.len(),
    decreases s.len(),
{
    if s.len() > 0 {
        lemma_utf16_len_nonneg(s.drop_last());
    }
}

/// The code units of two texts put together add up.
pub proof fn lemma_utf16_len_concat(a: Seq<char>, b: Seq<char>)
    ensures
        utf16_len(a + b) == utf16_len(a) + utf16_len(b),
    decreases b.len(),
{
    if b.len() == 0 {
        assert(a + b =~= a);
    } else {
        lemma_utf16_len_concat(a, b.drop_last());
        assert((a + b).drop_last() =~= a + b.drop_last());
    }
}

proof fn lemma_prefix_step(s: Seq<char>, i: int)
    requires
        0 <= i < s.len(),
    ensures
        utf16_len(s.take(i + 1)) == utf16_len(s.take(i)) + utf16_width(s[i]),
{
    assert(s.take(i + 1).drop_last() =~= s.take(i));
}

/// Prefix lengths in code units grow strictly with the prefix.
proof fn lemma_prefix_strictly_grows(s: Seq<char>, i: int, k: int)
    requires
        0 <= i < k <= s.len(),
    ensures
        utf16_len(s.take(i)) < utf16_len(s.take(k)),
    decreases k - i,
{
    lemma_prefix_step(s, k - 1);
    if i < k - 1 {
        lemma_prefix_strictly_grows(s, i, k - 1);
    }
}

proof fn lemma_boundary_unique(s: Seq<char>, i: int, k: int, units: int)
    requires
        is_unit_boundary(s, i, units),
        is_unit_boundary(s, k, units),
    ensures
        i == k,
{
    if i < k {
        lemma_prefix_strictly_grows(s, i, k);
    } else if k < i {
        lemma_prefix_strictly_grows(s, k, i);
    }
}

pub(crate) proof fn lemma_position_of_boundary(s: Seq<char>, i: int, units: int)
    requires
        is_unit_boundary(s, i, units),
    ensures
        unit_position(s, units) == Some(i),
{
    let k = choose|k: int| is_unit_boundary(s, k, units);
    lemma_boundary_unique(s, i, k, units);
}

/// Positions of the same text grow with the code units before them.
proof fn lemma_positions_ordered(s: Seq<char>, a: int, b: int, i: int, j: int)
    requires
        a <= b,
        unit_position(s, a) == Some(i),
        unit_position(s, b) == Some(j),
    ensures
        i <= j,
{
    if j < i {
        lemma_prefix_strictly_grows(s, j, i);
    }
}

/// Slicing by code units is exact: in the text `prefix + token + rest`, the
/// range that starts after the code units of `prefix` and spans those of
/// `token` covers `token`, whatever chars outside the basic multilingual
/// plane `prefix` holds.
pub proof fn lemma_slice_after_prefix(prefix: Seq<char>, token: Seq<char>, rest: Seq<char>)
    ensures
        utf16_slice(prefix + token + rest, utf16_len(prefix), utf16_len(token)) == Some(token),
{
    let s = prefix + token + rest;
    let a = prefix.len() as int;
    let b = a + token.len();
    assert(s.take(a) =~= prefix);
    assert(s.take(b) =~= prefix + token);
    lemma_utf16_len_concat(prefix, token);
    lemma_utf16_len_nonneg(token);
    lemma_position_of_boundary(s, a, utf16_len(prefix));
    lemma_position_of_boundary(s, b, utf16_len(prefix) + utf16_len(token));
    assert(s.subrange(a, b) =~= token);
}

/// Code units of `c`.
fn unit_width(c: char) -> (w: u8)
    ensures
        w as int == utf16_width(c),
{
    if (c as u32) < 0x10000 {
        1
    } else {
        2
    }
}

/// The char position of `s` that lies `units` code units from its start.
fn position_of_unit(s: &str, units: i64) -> (r: Option<usize>)
    requires
        0 <= units <= 0x1_0000_0000,
    ensures
        match r {
            Some(i) => unit_position(s@, units as int) == Some(i as int),
            None => unit_position(s@, units as int) is None,
        },
{
    let n = s.unicode_len();
    let mut chars = s.chars();
    let mut i: usize = 0;
    let mut acc: i64 = 0;
    proof {
        assert(s@.take(0) =~= Seq::<char>::empty());
        assert(s@.skip(0) =~= s@);
    }
    while acc < units
        invariant
            n == s@.len(),
            0 <= i <= n,
            chars.remaining() == s@.skip(i as int),
            0 <= units <= 0x1_0000_0000,
            0 <= acc <= units + 1,
            acc == utf16_len(s@.take(i as int)),
            forall|k: int| 0 <= k < i ==> utf16_len(#[trigger] s@.take(k)) < units,
        ensures
            acc >= units || i == n,
        decreases n - i,
    {
        match chars.next() {
            Some(c) => {
                proof {
                    assert(c == s@[i as int]);
                    assert(s@.skip(i as int).drop_first() =~= s@.skip(i + 1));
                    lemma_prefix_step(s@, i as int);
                }
                acc = acc + unit_width(c) as i64;
                i = i + 1;
            },
            None => {
                break;
            },
        }
    }
    if acc == units {
        proof {
            lemma_position_of_boundary(s@, i as int, units as int);
        }
        Some(i)
    } else {
        proof {
            assert forall|k: int| !is_unit_boundary(s@, k, units as int) by {
                if 0 <= k <= s@.len() && k > i {
                    lemma_prefix_strictly_grows(s@, i as int, k);
                }
            }
        }
        None
    }
}

/// The part of `s` that the code-unit range `[offset, offset + length)`
/// covers, or `None` where that range does not fit `s`.
pub fn utf16_substring(s: &str, offset: i32, length: i32) -> (r: Option<String>)
    ensures
        match r {
            Some(t) => utf16_slice(s@, offset as int, length as int) == Some(t@),
            None => utf16_slice(s@, offset as int, length as int) is None,
        },
{
    if length < 0 {
        return None;
    }
    if offset < 0 {
        proof {
            assert forall|k: int| !is_unit_boundary(s@, k, offset as int) by {
                lemma_utf16_len_nonneg(s@.take(k));
            }
        }
        return None;
    }
    let start = match position_of_unit(s, offset as i64) {
        Some(p) => p,
        None => return None,
    };
    let end = match position_of_unit(s, offset as i64 + length as i64) {
        Some(p) => p,
        None => return None,
    };
    proof {
        lemma_positions_ordered(s@, offset as int, offset as int + length as int, start as int, end as int);
    }
    let part = s.substring_char(start, end);
    Some(String::from_str(part))
}

/// `s` without the run of `/` it starts with.
pub fn strip_leading_slashes(s: &str) -> (r: &str)
    ensures
        r@ == trim_slashes(s@),
{
    let n = s.unicode_len();
    let mut i: usize = 0;
    proof {
        assert(s@.subrange(0, n as int) =~= s@);
    }
    while i < n && s.get_char(i) == '/'
        invariant
            n == s@.len(),
            0 <= i <= n,
            trim_slashes(s@) == trim_slashes(s@.subrange(i as int, n as int)),
        decreases n - i,
    {
        proof {
            assert(s@.subrange(i as int, n as int).drop_first() =~= s@.subrange(i + 1, n as int));
        }
        i = i + 1;
    }
    s.substring_char(i, n)
}

/// Whether `a` and `b` hold the same chars.
pub fn same_text(a: &str, b: &str) -> (r: bool)
    ensures
        r == (a@ == b@),
{
    let n = a.unicode_len();
    if n != b.unicode_len() {
        return false;
    }
    let mut i: usize = 0;
    while i < n
        invariant
            n == a@.len(),
            n == b@.len(),
            0 <= i <= n,
            forall|k: int| 0 <= k < i ==> a@[k] == b@[k],
        decreases n - i,
    {
        if a.get_char(i) != b.get_char(i) {
            return false;
        }
        i = i + 1;
    }
    assert(a@ =~= b@);
    true
}

/// What `str::to_lowercase` makes of `s`.
pub uninterp spec fn lower_of(s: Seq<char>) -> Seq<char>;

/// Relies on `str::to_lowercase`: the lowercase form of the string, which
/// depends on its chars alone.
#[verifier::external_body]
pub(crate) fn lowercase(s: &str) -> (r: String)
    ensures
        r@ == lower_of(s@),
{
    s.to_lowercase()
}

/// The decimal digit `d`.
pub open spec fn digit_char(d: int) -> char {
    if d == 0 {
        '0'
    } else if d == 1 {
        '1'
    } else if d == 2 {
        '2'
    } else if d == 3 {
        '3'
    } else if d == 4 {
        '4'
    } else if d == 5 {
        '5'
    } else if d == 6 {
        '6'
    } else if d == 7 {
        '7'
    } else if d == 8 {
        '8'
    } else {
        '9'
    }
}

/// Decimal digits of `n`, most significant first, without leading zeros.
pub open spec fn decimal_digits(n: nat) -> Seq<char>
    decreases n,
{
    if n < 10 {
        seq![digit_char(n as int)]
    } else {
        decimal_digits(n / 10).push(digit_char((n % 10) as int))
    }
}

/// `n` written in decimal, with a leading `-` when it is negative.
pub open spec fn decimal(n: int) -> Seq<char> {
    if n < 0 {
        seq!['-'] + decimal_digits((-n) as nat)
    } else {
        decimal_digits(n as nat)
    }
}

fn digit_str(d: u64) -> (r: &'static str)
    requires
        d < 10,
    ensures
        r@ == seq![digit_char(d as int)],
{
    let r = if d == 0 {
        "0"
    } else if d == 1 {
        "1"
    } else if d == 2 {
        "2"
    } else if d == 3 {
        "3"
    } else if d == 4 {
        "4"
    } else if d == 5 {
        "5"
    } else if d == 6 {
        "6"
    } else if d == 7 {
        "7"
    } else if d == 8 {
        "8"
    } else {
        "9"
    };
    proof {
        reveal_strlit("0");
        reveal_strlit("1");
        reveal_strlit("2");
        reveal_strlit("3");
        reveal_strlit("4");
        reveal_strlit("5");
        reveal_strlit("6");
        reveal_strlit("7");
        reveal_strlit("8");
        reveal_strlit("9");
    }
    assert(r@ =~= seq![digit_char(d as int)]);
    r
}

fn append_digits(out: &mut String, n: u64)
    ensures
        final(out)@ == old(out)@ + decimal_digits(n as nat),
    decreases n,
{
    if n >= 10 {
        append_digits(out, n / 10);
    }
    out.append(digit_str(n % 10));
    proof {
        if n >= 10 {
            assert(old(out)@ + decimal_digits(n as nat) =~= old(out)@ + decimal_digits((n / 10) as nat)
                + seq![digit_char((n % 10) as int)]);
        } else {
            assert(n % 10 == n);
        }
    }
}

/// Appends `n` in decimal to `out`.
pub fn append_decimal(out: &mut String, n: i64)
    ensures
        final(out)@ == old(out)@ + decimal(n as int),
{
    if n < 0 {
        out.append("-");
        proof {
            reveal_strlit("-");
        }
        let magnitude: u64 = (-(n as i128)) as u64;
        append_digits(out, magnitude);
        assert(out@ =~= old(out)@ + decimal(n as int));
    } else {
        append_digits(out, n as u64);
    }
}

} // verus!
