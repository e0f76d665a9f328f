//! Verified text helpers: decimal tokens (used for font sizes and the
//! padding defaults derived from them) and the HTML entity encoding that
//! badge normalization applies to user-supplied text.

use vstd::prelude::*;

verus! {

// ---------------------------------------------------------------------------
// Decimal digit strings
// ---------------------------------------------------------------------------

/// True when `c` is an ASCII decimal digit.
pub open spec fn is_digit_char(c: char) -> bool {
    '0' <= c && c <= '9'
}

/// Numeric value of a digit character.
pub open spec fn digit_val(c: char) -> int {
    c as int - 48
}

/// The digit character for a value below ten.
pub open spec fn digit_char(d: int) -> char {
    if d == 0 {
        '0'
    } else if d == 1 {
        '1'
    } else if d == 2 {
        '2'
    } else if d == 3 {
        '3'
    } else if d == 4 {
        '4'
    } else if d == 5 {
        '5'
    } else if d == 6 {
        '6'
    } else if d == 7 {
        '7'
    } else if d == 8 {
        '8'
    } else {
        '9'
    }
}

/// True when every character of `s` is an ASCII decimal digit.
pub open spec fn all_digits(s: Seq<char>) -> bool {
    forall|i: int| 0 <= i < s.len() ==> is_digit_char(#[trigger] s[i])
}

/// A decimal token as a font size must be: nonempty, all digits, and short
/// enough that arithmetic on its value fits in a machine word.
pub open spec fn numeric_token(s: Seq<char>) -> bool {
    1 <= s.len() <= 18 && all_digits(s)
}

/// The value of a digit string read in base ten.
pub open spec fn dec_val(s: Seq<char>) -> int
    decreases s.len(),
{
    if s.len() == 0 {
        0
    } else {
        dec_val(s.drop_last()) * 10 + digit_val(s.last())
    }
}

/// The canonical decimal rendering of a natural number.
pub open spec fn dec_str(n: nat) -> Seq<char>
    decreases n,
{
    if n < 10 {
        seq![digit_char(n as int)]
    } else {
        dec_str(n / 10).push(digit_char((n % 10) as int))
    }
}

/// Ten raised to `n`.
pub open spec fn pow10(n: nat) -> int
    decreases n,
{
    if n == 0 {
        1
    } else {
        10 * pow10((n - 1) as nat)
    }
}

/// The value of a digit string stays below ten to the power of its length.
pub proof fn lemma_dec_val_bound(s: Seq<char>)
    requires
        all_digits(s),
    ensures
        0 <= dec_val(s) < pow10(s.len()),
    decreases s.len(),
{
    if s.len() > 0 {
        assert(all_digits(s.drop_last())) by {
            assert(forall|i: int|
                0 <= i < s.drop_last().len() ==> s.drop_last()[i] == #[trigger] s[i]);
        }
        lemma_dec_val_bound(s.drop_last());
        assert(0 <= digit_val(s.last()) <= 9);
    }
}

/// Ten to the eighteenth fits in a `u64`.
pub proof fn lemma_pow10_18_fits()
    ensures
        pow10(18) <= u64::MAX,
{
    assert(pow10(0) == 1);
    assert(pow10(1) == 10);
    assert(pow10(2) == 100);
    assert(pow10(3) == 1000);
    assert(pow10(4) == 10000);
    assert(pow10(5) == 100000);
    assert(pow10(6) == 1000000);
    assert(pow10(7) == 10000000);
    assert(pow10(8) == 100000000);
    assert(pow10(9) == 1000000000);
    assert(pow10(10) == 10000000000);
    assert(pow10(11) == 100000000000);
    assert(pow10(12) == 1000000000000);
    assert(pow10(13) == 10000000000000);
    assert(pow10(14) == 100000000000000);
    assert(pow10(15) == 1000000000000000);
    assert(pow10(16) == 10000000000000000);
    assert(pow10(17) == 100000000000000000);
    assert(pow10(18) == 1000000000000000000);
}

/// Parses a digit string into its base-ten value.
pub fn parse_decimal(s: &str) -> (n: u64)
    requires
        numeric_token(s@),
    ensures
        n == dec_val(s@),
{
    let len = s.unicode_len();
    let mut n: u64 = 0;
    let mut i: usize = 0;
    while i < len
        invariant
            numeric_token(s@),
            len == s@.len(),
            0 <= i <= len,
            n == dec_val(s@.subrange(0, i as int)),
        decreases len - i,
    {
        let c = s.get_char(i);
        let ghost pre = s@.subrange(0, i as int);
        proof {
            assert(s@.subrange(0, i + 1).drop_last() =~= pre);
            assert(s@.subrange(0, i + 1).last() == s@[i as int]);
            assert(all_digits(pre));
            lemma_dec_val_bound(pre);
            lemma_pow10_18_fits();
            assert(pow10(i as nat) <= pow10(17)) by {
                lemma_pow10_monotone(i as nat, 17);
            }
        }
        let d: u64 = (c as u32 as u64) - 48;
        n = n * 10 + d;
        i = i + 1;
    }
    proof {
        assert(s@.subrange(0, len as int) =~= s@);
    }
    n
}

/// `pow10` is at least one.
pub proof fn lemma_pow10_pos(n: nat)
    ensures
        pow10(n) >= 1,
    decreases n,
{
    if n > 0 {
        lemma_pow10_pos((n - 1) as nat);
    }
}

/// `pow10` grows with its argument.
pub proof fn lemma_pow10_monotone(a: nat, b: nat)
    requires
        a <= b,
    ensures
        pow10(a) <= pow10(b),
    decreases b,
{
    if a < b {
        lemma_pow10_monotone(a, (b - 1) as nat);
        lemma_pow10_pos((b - 1) as nat);
        assert(pow10(b) == 10 * pow10((b - 1) as nat));
    }
}

/// Checks that a string is a decimal token: nonempty, all digits, and short
/// enough for word-sized arithmetic.
pub fn is_numeric_token(s: &str) -> (r: bool)
    ensures
        r == numeric_token(s@),
{
    let len = s.unicode_len();
    if len < 1 || len > 18 {
        return false;
    }
    let mut i: usize = 0;
    while i < len
        invariant
            len == s@.len(),
            0 <= i <= len,
            forall|j: int| 0 <= j < i ==> is_digit_char(#[trigger] s@[j]),
        decreases len - i,
    {
        let c = s.get_char(i);
        if c < '0' || c > '9' {
            return false;
        }
        i = i + 1;
    }
    true
}

/// One digit as a string slice.
fn digit_str(d: u64) -> (r: &'static str)
    requires
        d < 10,
    ensures
        r@ =~= seq![digit_char(d as int)],
{
    proof {
        reveal_strlit("0");
        reveal_strlit("1");
        reveal_strlit("2");
        reveal_strlit("3");
        reveal_strlit("4");
        reveal_strlit("5");
        reveal_strlit("6");
        reveal_strlit("7");
        reveal_strlit("8");
        reveal_strlit("9");
    }
    match d {
        0 => "0",
        1 => "1",
        2 => "2",
        3 => "3",
        4 => "4",
        5 => "5",
        6 => "6",
        7 => "7",
        8 => "8",
        _ => "9",
    }
}

/// Renders a natural number in decimal.
pub fn u64_to_string(n: u64) -> (r: String)
    ensures
        r@ == dec_str(n as nat),
    decreases n,
{
    if n < 10 {
        String::from_str(digit_str(n))
    } else {
        let mut r = u64_to_string(n / 10);
        r.append(digit_str(n % 10));
        r
    }
}

// ---------------------------------------------------------------------------
// Halves and eighths of a decimal token
// ---------------------------------------------------------------------------

/// Decimal rendering of half the value of a digit string: the integer part,
/// followed by `.5` when the value is odd.
pub open spec fn halved(s: Seq<char>) -> Seq<char> {
    let n = dec_val(s);
    if n % 2 == 0 {
        dec_str((n / 2) as nat)
    } else {
        dec_str((n / 2) as nat) + seq!['.', '5']
    }
}

/// The fractional digits of `r / 8`, for a remainder `r` below eight.
pub open spec fn eighth_frac(r: int) -> Seq<char> {
    if r == 0 {
        Seq::empty()
    } else if r == 1 {
        seq!['.', '1', '2', '5']
    } else if r == 2 {
        seq!['.', '2', '5']
    } else if r == 3 {
        seq!['.', '3', '7', '5']
    } else if r == 4 {
        seq!['.', '5']
    } else if r == 5 {
        seq!['.', '6', '2', '5']
    } else if r == 6 {
        seq!['.', '7', '5']
    } else {
        seq!['.', '8', '7', '5']
    }
}

/// Decimal rendering of an eighth of the value of a digit string.
pub open spec fn eighthed(s: Seq<char>) -> Seq<char> {
    let n = dec_val(s);
    dec_str((n / 8) as nat) + eighth_frac(n % 8)
}

/// Half of a decimal token, rendered exactly.
pub fn half_of_token(s: &str) -> (r: String)
    requires
        numeric_token(s@),
    ensures
        r@ == halved(s@),
{
    proof {
        lemma_dec_val_bound(s@);
    }
    let n = parse_decimal(s);
    if n % 2 == 0 {
        u64_to_string(n / 2)
    } else {
        let mut r = u64_to_string(n / 2);
        r.append(".5");
        proof {
            reveal_strlit(".5");
            assert(".5"@ =~= seq!['.', '5']);
        }
        r
    }
}

/// An eighth of a decimal token, rendered exactly.
pub fn eighth_of_token(s: &str) -> (r: String)
    requires
        numeric_token(s@),
    ensures
        r@ == eighthed(s@),
{
    proof {
        lemma_dec_val_bound(s@);
    }
    let n = parse_decimal(s);
    let mut r = u64_to_string(n / 8);
    let rem = n % 8;
    proof {
        reveal_strlit(".125");
        reveal_strlit(".25");
        reveal_strlit(".375");
        reveal_strlit(".5");
        reveal_strlit(".625");
        reveal_strlit(".75");
        reveal_strlit(".875");
    }
    match rem {
        0 => {
            proof {
                assert(r@ =~= dec_str((dec_val(s@) / 8) as nat) + eighth_frac(0));
            }
        },
        1 => {
            r.append(".125");
            proof {
                assert(".125"@ =~= seq!['.', '1', '2', '5']);
            }
        },
        2 => {
            r.append(".25");
            proof {
                assert(".25"@ =~= seq!['.', '2', '5']);
            }
        },
        3 => {
            r.append(".375");
            proof {
                assert(".375"@ =~= seq!['.', '3', '7', '5']);
            }
        },
        4 => {
            r.append(".5");
            proof {
                assert(".5"@ =~= seq!['.', '5']);
            }
        },
        5 => {
            r.append(".625");
            proof {
                assert(".625"@ =~= seq!['.', '6', '2', '5']);
            }
        },
        6 => {
            r.append(".75");
            proof {
                assert(".75"@ =~= seq!['.', '7', '5']);
            }
        },
        _ => {
            r.append(".875");
            proof {
                assert(".875"@ =~= seq!['.', '8', '7', '5']);
            }
        },
    }
    r
}

// ---------------------------------------------------------------------------
// HTML entity encoding
// ---------------------------------------------------------------------------

/// The minimal HTML entity expansion of one character: the five markup
/// characters become entities, every other character stands unchanged.
pub open spec fn escape_char(c: char) -> Seq<char> {
    if c == '"' {
        seq!['&', 'q', 'u', 'o', 't', ';']
    } else if c == '&' {
        seq!['&', 'a', 'm', 'p', ';']
    } else if c == '\'' {
        seq!['&', '#', 'x', '2', '7', ';']
    } else if c == '<' {
        seq!['&', 'l', 't', ';']
    } else if c == '>' {
        seq!['&', 'g', 't', ';']
    } else {
        seq![c]
    }
}

/// Minimal HTML entity encoding of a whole string, character by character.
pub open spec fn escape_seq(s: Seq<char>) -> Seq<char>
    decreases s.len(),
{
    if s.len() == 0 {
        Seq::empty()
    } else {
        escape_char(s[0]) + escape_seq(s.drop_first())
    }
}

/// True when no character of `s` has an entity expansion.
pub open spec fn escape_free(s: Seq<char>) -> bool {
    forall|i: int|
        0 <= i < s.len() ==> escape_char(#[trigger] s[i]) == seq![s[i]]
}

/// The encoded text is safe to embed in markup: no quote and no angle
/// bracket survives the encoding.
pub proof fn lemma_escape_safe(s: Seq<char>)
    ensures
        forall|i: int|
            0 <= i < escape_seq(s).len() ==> {
                let c = #[trigger] escape_seq(s)[i];
                c != '<' && c != '>' && c != '"' && c != '\''
            },
    decreases s.len(),
{
    if s.len() > 0 {
        lemma_escape_safe(s.drop_first());
        assert forall|i: int| 0 <= i < escape_seq(s).len() implies {
            let c = #[trigger] escape_seq(s)[i];
            c != '<' && c != '>' && c != '"' && c != '\''
        } by {
            let head = escape_char(s[0]);
            if i < head.len() {
                assert(escape_seq(s)[i] == head[i]);
            } else {
                assert(escape_seq(s)[i] == escape_seq(s.drop_first())[i - head.len()]);
            }
        }
    }
}

/// Encoding a string without markup characters leaves it unchanged.
pub proof fn lemma_escape_noop(s: Seq<char>)
    requires
        escape_free(s),
    ensures
        escape_seq(s) == s,
    decreases s.len(),
{
    if s.len() == 0 {
        assert(escape_seq(s) =~= s);
    } else {
        assert(escape_free(s.drop_first())) by {
            assert(forall|i: int|
                0 <= i < s.drop_first().len() ==> s.drop_first()[i] == #[trigger] s[i + 1]);
        }
        lemma_escape_noop(s.drop_first());
        assert(escape_seq(s) =~= seq![s[0]] + s.drop_first());
        assert(seq![s[0]] + s.drop_first() =~= s);
    }
}

} // verus!
