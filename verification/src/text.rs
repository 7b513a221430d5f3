//! Verified plain-text helpers: decimal numerals, and splitting a
//! character sequence on a separator or on whitespace.

use vstd::prelude::*;
use vstd::string::*;

verus! {

/// The character for one decimal digit value.
pub open spec fn spec_digit_char(d: nat) -> char {
    if d == 0 {
        '0'
    } else if d == 1 {
        '1'
    } else if d == 2 {
        '2'
    } else if d == 3 {
        '3'
    } else if d == 4 {
        '4'
    } else if d == 5 {
        '5'
    } else if d == 6 {
        '6'
    } else if d == 7 {
        '7'
    } else if d == 8 {
        '8'
    } else {
        '9'
    }
}

/// The decimal numeral of `n`, most significant digit first, with no
/// sign and no leading zeros.
pub open spec fn spec_decimal(n: nat) -> Seq<char>
    decreases n,
{
    if n < 10 {
        seq![spec_digit_char(n)]
    } else {
        spec_decimal(n / 10) + seq![spec_digit_char(n % 10)]
    }
}

/// The one-character string for a single digit value.
fn digit_str(d: u8) -> (s: &'static str)
    requires
        d < 10,
    ensures
        s@ == seq![spec_digit_char(d as nat)],
{
    proof {
        reveal_strlit("0");
        reveal_strlit("1");
        reveal_strlit("2");
        reveal_strlit("3");
        reveal_strlit("4");
        reveal_strlit("5");
        reveal_strlit("6");
        reveal_strlit("7");
        reveal_strlit("8");
        reveal_strlit("9");
    }
    let s = match d {
        0 => "0",
        1 => "1",
        2 => "2",
        3 => "3",
        4 => "4",
        5 => "5",
        6 => "6",
        7 => "7",
        8 => "8",
        _ => "9",
    };
    proof {
        assert(s@ =~= seq![spec_digit_char(d as nat)]);
    }
    s
}

/// Renders `n` as its decimal numeral.
pub fn u8_to_decimal(n: u8) -> (s: String)
    ensures
        s@ == spec_decimal(n as nat),
    decreases n,
{
    if n < 10 {
        String::from_str(digit_str(n))
    } else {
        let prefix = u8_to_decimal(n / 10);
        prefix.concat(digit_str(n % 10))
    }
}

/// Whether `c` is a decimal digit.
pub open spec fn spec_is_digit(c: char) -> bool {
    c == '0' || c == '1' || c == '2' || c == '3' || c == '4' || c == '5' || c == '6' || c == '7'
        || c == '8' || c == '9'
}

/// The value of one digit character.
pub open spec fn spec_digit_value(c: char) -> nat
    recommends
        spec_is_digit(c),
{
    if c == '0' {
        0
    } else if c == '1' {
        1
    } else if c == '2' {
        2
    } else if c == '3' {
        3
    } else if c == '4' {
        4
    } else if c == '5' {
        5
    } else if c == '6' {
        6
    } else if c == '7' {
        7
    } else if c == '8' {
        8
    } else {
        9
    }
}

/// The number a digit sequence denotes, most significant digit first.
pub open spec fn spec_digits_value(s: Seq<char>) -> nat
    decreases s.len(),
{
    if s.len() == 0 {
        0
    } else {
        spec_digits_value(s.drop_last()) * 10 + spec_digit_value(s.last())
    }
}

/// Whether `s` is a numeral: nonempty and all decimal digits.
pub open spec fn spec_is_numeral(s: Seq<char>) -> bool {
    s.len() > 0 && (forall|i: int| 0 <= i < s.len() ==> spec_is_digit(s[i]))
}

/// The `u8` a token denotes: the value of its digits when the token is
/// a numeral no greater than 255, and 0 for every other token.
pub open spec fn spec_token_u8(s: Seq<char>) -> u8 {
    if spec_is_numeral(s) && spec_digits_value(s) <= 255 {
        spec_digits_value(s) as u8
    } else {
        0
    }
}

/// Reads a `u8` from a token, yielding 0 for anything that is not a
/// numeral in range.
pub fn token_u8(token: &Vec<char>) -> (value: u8)
    ensures
        value == spec_token_u8(token@),
{
    if token.len() == 0 {
        return 0;
    }
    let mut acc: u16 = 0;
    let mut too_big = false;
    let mut i: usize = 0;
    while i < token.len()
        invariant
            0 < token@.len(),
            i <= token@.len(),
            forall|j: int| 0 <= j < i ==> spec_is_digit(token@[j]),
            too_big <==> spec_digits_value(token@.take(i as int)) > 255,
            !too_big ==> acc == spec_digits_value(token@.take(i as int)),
            acc <= 255,
        decreases token@.len() - i,
    {
        let c = token[i];
        let d: u8 = match c {
            '0' => 0,
            '1' => 1,
            '2' => 2,
            '3' => 3,
            '4' => 4,
            '5' => 5,
            '6' => 6,
            '7' => 7,
            '8' => 8,
            '9' => 9,
            _ => {
                assert(!spec_is_digit(token@[i as int]));
                return 0;
            },
        };
        proof {
            assert(spec_is_digit(c) && spec_digit_value(c) == d as nat);
            assert(token@.take(i + 1).drop_last() =~= token@.take(i as int));
            assert(token@.take(i + 1).last() == c);
        }
        if too_big || acc * 10 + (d as u16) > 255 {
            too_big = true;
        } else {
            acc = acc * 10 + d as u16;
        }
        i += 1;
    }
    proof {
        assert(token@.take(token@.len() as int) =~= token@);
    }
    if too_big {
        0
    } else {
        acc as u8
    }
}

/// Whether `c` is an ASCII whitespace character.
pub open spec fn spec_is_space(c: char) -> bool {
    c == ' ' || c == '\t' || c == '\r' || c == '\n'
}

/// The pieces of `s` between occurrences of `sep`. A sequence without
/// separators is one piece, so the result is never empty, and empty
/// pieces are kept.
pub open spec fn spec_split_on(s: Seq<char>, sep: char) -> Seq<Seq<char>>
    decreases s.len(),
{
    if s.len() == 0 {
        seq![Seq::<char>::empty()]
    } else {
        let rest = spec_split_on(s.drop_last(), sep);
        if s.last() == sep {
            rest.push(Seq::<char>::empty())
        } else {
            rest.update(rest.len() - 1, rest.last().push(s.last()))
        }
    }
}

/// Splits `chars` on the separator `sep`, keeping empty pieces.
pub fn split_on(chars: &Vec<char>, sep: char) -> (pieces: Vec<Vec<char>>)
    ensures
        pieces.deep_view() == spec_split_on(chars@, sep),
{
    let mut pieces: Vec<Vec<char>> = Vec::new();
    let mut current: Vec<char> = Vec::new();
    let mut i: usize = 0;
    proof {
        assert(pieces.deep_view().push(current@) =~~= spec_split_on(chars@.take(0), sep));
    }
    while i < chars.len()
        invariant
            i <= chars@.len(),
            pieces.deep_view().push(current@) == spec_split_on(chars@.take(i as int), sep),
        decreases chars@.len() - i,
    {
        let ghost prev = pieces.deep_view().push(current@);
        let c = chars[i];
        proof {
            assert(chars@.take(i + 1).drop_last() =~= chars@.take(i as int));
            assert(chars@.take(i + 1).last() == c);
        }
        if c == sep {
            pieces.push(current);
            current = Vec::new();
            proof {
                assert(pieces.deep_view().push(current@) =~~= prev.push(Seq::<char>::empty()));
            }
        } else {
            current.push(c);
            proof {
                assert(pieces.deep_view().push(current@) =~~= prev.update(
                    prev.len() - 1,
                    prev.last().push(c),
                ));
            }
        }
        i += 1;
    }
    proof {
        assert(chars@.take(chars@.len() as int) =~= chars@);
    }
    pieces.push(current);
    proof {
        assert(pieces.deep_view() =~~= spec_split_on(chars@, sep));
    }
    pieces
}

/// The maximal runs of non-whitespace characters in `s`, in order.
/// Whitespace only separates: no piece is empty, and a sequence of
/// nothing but whitespace has no pieces at all.
pub open spec fn spec_split_whitespace(s: Seq<char>) -> Seq<Seq<char>>
    decreases s.len(),
{
    if s.len() == 0 {
        Seq::empty()
    } else {
        let rest = spec_split_whitespace(s.drop_last());
        let c = s.last();
        if spec_is_space(c) {
            rest
        } else if s.len() >= 2 && !spec_is_space(s[s.len() - 2]) {
            rest.update(rest.len() - 1, rest.last().push(c))
        } else {
            rest.push(seq![c])
        }
    }
}

/// Splits `chars` into its whitespace-separated tokens.
pub fn split_whitespace(chars: &Vec<char>) -> (tokens: Vec<Vec<char>>)
    ensures
        tokens.deep_view() == spec_split_whitespace(chars@),
{
    let mut tokens: Vec<Vec<char>> = Vec::new();
    let mut current: Vec<char> = Vec::new();
    let mut i: usize = 0;
    proof {
        assert(tokens.deep_view() =~~= spec_split_whitespace(chars@.take(0)));
    }
    while i < chars.len()
        invariant
            i <= chars@.len(),
            current@.len() == 0 ==> tokens.deep_view() == spec_split_whitespace(
                chars@.take(i as int),
            ) && (i == 0 || spec_is_space(chars@[i as int - 1])),
            current@.len() > 0 ==> i > 0 && !spec_is_space(chars@[i as int - 1])
                && tokens.deep_view().push(current@) == spec_split_whitespace(
                chars@.take(i as int),
            ),
        decreases chars@.len() - i,
    {
        let ghost prev = spec_split_whitespace(chars@.take(i as int));
        let c = chars[i];
        proof {
            assert(chars@.take(i + 1).drop_last() =~= chars@.take(i as int));
            assert(chars@.take(i + 1).last() == c);
        }
        let is_space = c == ' ' || c == '\t' || c == '\r' || c == '\n';
        if is_space {
            if current.len() > 0 {
                tokens.push(current);
                current = Vec::new();
                proof {
                    assert(tokens.deep_view() =~~= prev);
                }
            }
        } else {
            if current.len() == 0 {
                current.push(c);
                proof {
                    assert(current@ =~= seq![c]);
                    assert(tokens.deep_view().push(current@) =~~= prev.push(seq![c]));
                }
            } else {
                let ghost with_current = tokens.deep_view().push(current@);
                current.push(c);
                proof {
                    assert(tokens.deep_view().push(current@) =~~= with_current.update(
                        with_current.len() - 1,
                        with_current.last().push(c),
                    ));
                }
            }
        }
        i += 1;
    }
    proof {
        assert(chars@.take(chars@.len() as int) =~= chars@);
    }
    if current.len() > 0 {
        tokens.push(current);
        proof {
            assert(tokens.deep_view() =~~= spec_split_whitespace(chars@));
        }
    }
    tokens
}

/// Copies the characters of `s` into a vector.
pub fn chars_of_str(s: &str) -> (chars: Vec<char>)
    ensures
        chars@ == s@,
{
    let len = s.unicode_len();
    let mut chars: Vec<char> = Vec::new();
    let mut i: usize = 0;
    while i < len
        invariant
            i <= len,
            len == s@.len(),
            chars@ == s@.take(i as int),
        decreases len - i,
    {
        let c = s.get_char(i);
        proof {
            assert(chars@.push(c) =~= s@.take(i + 1));
        }
        chars.push(c);
        i += 1;
    }
    proof {
        assert(s@.take(len as int) =~= s@);
    }
    chars
}

} // verus!
