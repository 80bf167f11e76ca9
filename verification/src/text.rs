//! Verified text utilities: decimal printing and parsing, flag parsing,
//! secret masking, and list joining. These back the edit buffer round
//! trips and the renderer's data shaping.

use vstd::prelude::*;

verus! {

/// Trusted shim over `String::push`, which vstd does not specify.
/// Relies on `String::push`: appends the given character to the end of
/// the string.
#[verifier::external_body]
pub fn push_char(s: &mut String, c: char)
    ensures
        final(s)@ == old(s)@.push(c),
{
    s.push(c)
}

/// Trusted shim over `String::pop`, which vstd does not specify.
/// Relies on `String::pop`: removes and returns the last character, or
/// returns `None` when the string is empty.
#[verifier::external_body]
pub fn pop_char(s: &mut String) -> (r: Option<char>)
    ensures
        old(s)@.len() == 0 ==> final(s)@ == old(s)@ && r is None,
        old(s)@.len() > 0 ==> final(s)@ == old(s)@.drop_last() && r == Some(old(s)@.last()),
{
    s.pop()
}

pub open spec fn is_digit(c: char) -> bool {
    48 <= c as u32 && c as u32 <= 57
}

pub open spec fn char_digit(c: char) -> nat {
    if is_digit(c) {
        (c as u32 - 48) as nat
    } else {
        0
    }
}

pub open spec fn digit_char(d: int) -> char {
    if d == 0 {
        '0'
    } else if d == 1 {
        '1'
    } else if d == 2 {
        '2'
    } else if d == 3 {
        '3'
    } else if d == 4 {
        '4'
    } else if d == 5 {
        '5'
    } else if d == 6 {
        '6'
    } else if d == 7 {
        '7'
    } else if d == 8 {
        '8'
    } else {
        '9'
    }
}

/// The decimal rendering of a natural number, most significant digit first.
pub open spec fn dec_str(n: nat) -> Seq<char>
    decreases n,
{
    if n < 10 {
        seq![digit_char(n as int)]
    } else {
        dec_str(n / 10).push(digit_char((n % 10) as int))
    }
}

pub open spec fn all_digits(s: Seq<char>) -> bool {
    forall|i: int| 0 <= i < s.len() ==> is_digit(#[trigger] s[i])
}

/// The value of a digit string, read most significant digit first.
pub open spec fn digits_val(s: Seq<char>) -> nat
    decreases s.len(),
{
    if s.len() == 0 {
        0
    } else {
        digits_val(s.drop_last()) * 10 + char_digit(s.last())
    }
}

fn digit_to_char(d: u8) -> (c: char)
    requires
        d < 10,
    ensures
        c == digit_char(d as int),
{
    match d {
        0 => '0',
        1 => '1',
        2 => '2',
        3 => '3',
        4 => '4',
        5 => '5',
        6 => '6',
        7 => '7',
        8 => '8',
        _ => '9',
    }
}

/// Renders `n` in decimal.
pub fn u64_to_dec(n: u64) -> (s: String)
    ensures
        s@ == dec_str(n as nat),
    decreases n,
{
    if n < 10 {
        let mut s = String::new();
        push_char(&mut s, digit_to_char(n as u8));
        proof {
            assert(s@ =~= dec_str(n as nat));
        }
        s
    } else {
        let mut s = u64_to_dec(n / 10);
        push_char(&mut s, digit_to_char((n % 10) as u8));
        proof {
            assert(s@ =~= dec_str(n as nat));
        }
        s
    }
}

/// A prefix of a digit string never exceeds the value of the whole.
proof fn lemma_digits_val_prefix_le(s: Seq<char>, i: int)
    requires
        0 <= i <= s.len(),
    ensures
        digits_val(s.subrange(0, i)) <= digits_val(s),
    decreases s.len(),
{
    if i == s.len() {
        assert(s.subrange(0, i) =~= s);
    } else {
        let shorter = s.drop_last();
        assert(s.subrange(0, i) =~= shorter.subrange(0, i));
        lemma_digits_val_prefix_le(shorter, i);
    }
}

/// Parses a decimal port number; rejects the empty string, any
/// non-digit character, and values above `u16::MAX`.
pub fn parse_port(s: &str) -> (r: Option<u16>)
    ensures
        match r {
            Some(p) => s@.len() > 0 && all_digits(s@) && digits_val(s@) == p as nat,
            None => s@.len() == 0 || !all_digits(s@) || digits_val(s@) > 65535,
        },
{
    let n: usize = s.unicode_len();
    if n == 0 {
        return None;
    }
    let mut acc: u32 = 0;
    let mut i: usize = 0;
    while i < n
        invariant
            0 <= i <= n,
            n == s@.len(),
            acc <= 65535,
            all_digits(s@.subrange(0, i as int)),
            acc as nat == digits_val(s@.subrange(0, i as int)),
        decreases n - i,
    {
        let c = s.get_char(i);
        let u: u32 = c as u32;
        if u < 48 || u > 57 {
            assert(!is_digit(s@[i as int]));
            return None;
        }
        let d: u32 = u - 48;
        proof {
            assert(s@.subrange(0, i + 1).drop_last() =~= s@.subrange(0, i as int));
            assert(s@.subrange(0, i + 1).last() == s@[i as int]);
        }
        acc = acc * 10 + d;
        i = i + 1;
        if acc > 65535 {
            proof {
                lemma_digits_val_prefix_le(s@, i as int);
            }
            return None;
        }
    }
    proof {
        assert(s@.subrange(0, n as int) =~= s@);
    }
    Some(acc as u16)
}

/// Printing a value and reading it back yields the same value; the
/// rendering is never empty and contains digits only.
pub proof fn lemma_dec_str_round_trip(n: nat)
    ensures
        dec_str(n).len() >= 1,
        all_digits(dec_str(n)),
        digits_val(dec_str(n)) == n,
    decreases n,
{
    if n < 10 {
        let s = seq![digit_char(n as int)];
        assert(s.drop_last() =~= Seq::<char>::empty());
        assert(digits_val(Seq::<char>::empty()) == 0);
        assert(digits_val(s) == char_digit(digit_char(n as int)));
    } else {
        lemma_dec_str_round_trip(n / 10);
        let prefix = dec_str(n / 10);
        let s = prefix.push(digit_char((n % 10) as int));
        assert(s.drop_last() =~= prefix);
        assert(s.last() == digit_char((n % 10) as int));
        assert(char_digit(digit_char((n % 10) as int)) == n % 10);
        assert forall|i: int| 0 <= i < s.len() implies is_digit(#[trigger] s[i]) by {
            if i < prefix.len() {
                assert(is_digit(prefix[i]));
            }
        }
        vstd::arithmetic::div_mod::lemma_fundamental_div_mod(n as int, 10);
    }
}

pub open spec fn lower_matches(c: char, l: char) -> bool {
    c == l || c as u32 == l as u32 - 32
}

/// Whether the string spells "true", ASCII case-insensitively.
pub open spec fn is_true_ci(s: Seq<char>) -> bool {
    s.len() == 4 && lower_matches(s[0], 't') && lower_matches(s[1], 'r') && lower_matches(
        s[2],
        'u',
    ) && lower_matches(s[3], 'e')
}

/// Reads a boolean flag from its text: exactly "true", in any ASCII
/// case mix, is accepted; everything else reads as false.
pub fn parse_flag(s: &str) -> (b: bool)
    ensures
        b == is_true_ci(s@),
{
    let n: usize = s.unicode_len();
    if n != 4 {
        return false;
    }
    let c0 = s.get_char(0);
    let c1 = s.get_char(1);
    let c2 = s.get_char(2);
    let c3 = s.get_char(3);
    (c0 == 't' || c0 == 'T') && (c1 == 'r' || c1 == 'R') && (c2 == 'u' || c2 == 'U') && (c3 == 'e'
        || c3 == 'E')
}

pub open spec fn bool_str(b: bool) -> Seq<char> {
    if b {
        seq!['t', 'r', 'u', 'e']
    } else {
        seq!['f', 'a', 'l', 's', 'e']
    }
}

/// Renders a boolean flag as "true" or "false".
pub fn bool_to_str(b: bool) -> (s: String)
    ensures
        s@ == bool_str(b),
{
    if b {
        let s = String::from_str("true");
        proof {
            reveal_strlit("true");
            assert(s@ =~= bool_str(true));
        }
        s
    } else {
        let s = String::from_str("false");
        proof {
            reveal_strlit("false");
            assert(s@ =~= bool_str(false));
        }
        s
    }
}

/// Reading the rendering of a flag yields the flag back.
pub proof fn lemma_flag_round_trip(b: bool)
    ensures
        is_true_ci(bool_str(b)) == b,
{
}

/// How a secret renders: length up to eight becomes that many
/// asterisks; anything longer keeps its first four and last four
/// characters around a five-dot separator.
pub open spec fn mask_seq(s: Seq<char>) -> Seq<char> {
    if s.len() <= 8 {
        Seq::new(s.len(), |i: int| '*')
    } else {
        s.subrange(0, 4) + Seq::new(5, |i: int| '.') + s.subrange(s.len() - 4, s.len() as int)
    }
}

/// Masks a secret for display.
pub fn mask_key(s: &str) -> (r: String)
    ensures
        r@ == mask_seq(s@),
{
    let n: usize = s.unicode_len();
    if n <= 8 {
        let mut r = String::new();
        let mut i: usize = 0;
        while i < n
            invariant
                0 <= i <= n,
                r@ =~= Seq::new(i as nat, |j: int| '*'),
            decreases n - i,
        {
            push_char(&mut r, '*');
            i = i + 1;
        }
        proof {
            assert(r@ =~= mask_seq(s@));
        }
        r
    } else {
        let head = s.substring_char(0, 4);
        let tail = s.substring_char(n - 4, n);
        let r = String::from_str(head).concat(".....").concat(tail);
        proof {
            reveal_strlit(".....");
            assert(r@ =~= mask_seq(s@));
        }
        r
    }
}

/// The parts joined with the separator between consecutive parts.
pub open spec fn join_with(parts: Seq<Seq<char>>, sep: Seq<char>) -> Seq<char>
    decreases parts.len(),
{
    if parts.len() == 0 {
        Seq::empty()
    } else if parts.len() == 1 {
        parts[0]
    } else {
        parts[0] + sep + join_with(parts.drop_first(), sep)
    }
}

proof fn lemma_join_snoc(parts: Seq<Seq<char>>, sep: Seq<char>, x: Seq<char>)
    ensures
        parts.len() == 0 ==> join_with(parts.push(x), sep) == x,
        parts.len() > 0 ==> join_with(parts.push(x), sep) == join_with(parts, sep) + sep + x,
    decreases parts.len(),
{
    if parts.len() == 0 {
        assert(parts.push(x)[0] == x);
    } else if parts.len() == 1 {
        assert(parts.push(x).drop_first() =~= seq![x]);
        assert(join_with(seq![x], sep) == x);
        assert(parts.push(x)[0] == parts[0]);
    } else {
        lemma_join_snoc(parts.drop_first(), sep, x);
        assert(parts.push(x).drop_first() =~= parts.drop_first().push(x));
        assert(parts.push(x)[0] == parts[0]);
        assert(parts[0] + sep + (join_with(parts.drop_first(), sep) + sep + x) =~= (parts[0] + sep
            + join_with(parts.drop_first(), sep)) + sep + x);
    }
}

pub open spec fn views_of(parts: Seq<String>) -> Seq<Seq<char>> {
    parts.map_values(|p: String| p@)
}

/// Joins the strings with ", " between consecutive entries.
pub fn join_comma(parts: &Vec<String>) -> (r: String)
    ensures
        r@ == join_with(views_of(parts@), seq![',', ' ']),
{
    let mut r = String::new();
    let mut i: usize = 0;
    while i < parts.len()
        invariant
            0 <= i <= parts@.len(),
            r@ == join_with(views_of(parts@.subrange(0, i as int)), seq![',', ' ']),
        decreases parts@.len() - i,
    {
        if i > 0 {
            push_char(&mut r, ',');
            push_char(&mut r, ' ');
        }
        let part = &parts[i];
        let mut j: usize = 0;
        let ghost r_before = r@;
        while j < part.unicode_len()
            invariant
                0 <= j <= part@.len(),
                r@ == r_before + part@.subrange(0, j as int),
            decreases part@.len() - j,
        {
            let c = part.as_str().get_char(j);
            push_char(&mut r, c);
            proof {
                assert(r_before + part@.subrange(0, j + 1) =~= (r_before + part@.subrange(
                    0,
                    j as int,
                )).push(part@[j as int]));
            }
            j = j + 1;
        }
        proof {
            assert(part@.subrange(0, part@.len() as int) =~= part@);
            lemma_join_snoc(views_of(parts@.subrange(0, i as int)), seq![',', ' '], part@);
            assert(views_of(parts@.subrange(0, i + 1)) =~= views_of(
                parts@.subrange(0, i as int),
            ).push(part@));
        }
        i = i + 1;
    }
    proof {
        assert(parts@.subrange(0, parts@.len() as int) =~= parts@);
    }
    r
}

} // verus!
