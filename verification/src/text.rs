//! Text helpers shared by the statement builders: decimal numerals, trimming
//! and the escaping of search terms.

use vstd::prelude::*;
use vstd::string::*;

verus! {

/// The character of a decimal digit.
pub open spec fn digit_char(d: nat) -> char
    recommends
        d < 10,
{
    if d == 0 {
        '0'
    } else if d == 1 {
        '1'
    } else if d == 2 {
        '2'
    } else if d == 3 {
        '3'
    } else if d == 4 {
        '4'
    } else if d == 5 {
        '5'
    } else if d == 6 {
        '6'
    } else if d == 7 {
        '7'
    } else if d == 8 {
        '8'
    } else {
        '9'
    }
}

/// The decimal numeral of a number, without sign or leading zeros.
pub open spec fn decimal(n: nat) -> Seq<char>
    decreases n,
{
    if n < 10 {
        seq![digit_char(n)]
    } else {
        decimal(n / 10).push(digit_char(n % 10))
    }
}

fn digit_str(d: u128) -> (text: &'static str)
    requires
        d < 10,
    ensures
        text@ == seq![digit_char(d as nat)],
{
    proof {
        reveal_strlit("0");
        reveal_strlit("1");
        reveal_strlit("2");
        reveal_strlit("3");
        reveal_strlit("4");
        reveal_strlit("5");
        reveal_strlit("6");
        reveal_strlit("7");
        reveal_strlit("8");
        reveal_strlit("9");
    }
    let text = if d == 0 {
        "0"
    } else if d == 1 {
        "1"
    } else if d == 2 {
        "2"
    } else if d == 3 {
        "3"
    } else if d == 4 {
        "4"
    } else if d == 5 {
        "5"
    } else if d == 6 {
        "6"
    } else if d == 7 {
        "7"
    } else if d == 8 {
        "8"
    } else {
        "9"
    };
    assert(text@ =~= seq![digit_char(d as nat)]);
    text
}

/// Writes a number as its decimal numeral.
pub fn decimal_text(n: u128) -> (text: String)
    ensures
        text@ == decimal(n as nat),
    decreases n,
{
    if n < 10 {
        String::from_str(digit_str(n))
    } else {
        let mut text = decimal_text(n / 10);
        text.append(digit_str(n % 10));
        assert(text@ =~= decimal(n as nat));
        text
    }
}

/// Whether a character is white space: the code points with the Unicode
/// property `White_Space`.
pub open spec fn is_whitespace(c: char) -> bool {
    let code = c as u32;
    ||| (0x09 <= code <= 0x0d)
    ||| code == 0x20
    ||| code == 0x85
    ||| code == 0xa0
    ||| code == 0x1680
    ||| (0x2000 <= code <= 0x200a)
    ||| code == 0x2028
    ||| code == 0x2029
    ||| code == 0x202f
    ||| code == 0x205f
    ||| code == 0x3000
}

/// A text without its leading white space.
pub open spec fn trimmed_start(text: Seq<char>) -> Seq<char>
    decreases text.len(),
{
    if text.len() > 0 && is_whitespace(text.first()) {
        trimmed_start(text.drop_first())
    } else {
        text
    }
}

/// A text without its trailing white space.
pub open spec fn trimmed_end(text: Seq<char>) -> Seq<char>
    decreases text.len(),
{
    if text.len() > 0 && is_whitespace(text.last()) {
        trimmed_end(text.drop_last())
    } else {
        text
    }
}

/// A text without its leading and trailing white space.
pub open spec fn trimmed(text: Seq<char>) -> Seq<char> {
    trimmed_end(trimmed_start(text))
}

/// `str::trim` of the standard library: the slice that is left when the
/// leading and the trailing white space are taken away, white space being the
/// characters with the Unicode property `White_Space`.
#[verifier::external_body]
pub(crate) fn trim(text: &str) -> (inner: &str)
    ensures
        inner@ == trimmed(text@),
{
    text.trim()
}

/// Whether a character has a meaning of its own in a `LIKE` pattern.
pub open spec fn is_pattern_char(c: char) -> bool {
    c == '\\' || c == '%' || c == '_'
}

/// A text in which every character that has a meaning in a `LIKE` pattern is
/// preceded by a backslash, so that the pattern matches the text itself.
pub open spec fn like_escaped(text: Seq<char>) -> Seq<char>
    decreases text.len(),
{
    if text.len() == 0 {
        Seq::empty()
    } else if is_pattern_char(text.last()) {
        like_escaped(text.drop_last()).push('\\').push(text.last())
    } else {
        like_escaped(text.drop_last()).push(text.last())
    }
}

/// The `LIKE` pattern that matches every text which contains the trimmed term.
pub open spec fn contains_pattern(term: Seq<char>) -> Seq<char> {
    seq!['%'] + like_escaped(trimmed(term)) + seq!['%']
}

/// Escapes a text for use inside a `LIKE` pattern.
pub fn escape_like(text: &str) -> (escaped: String)
    ensures
        escaped@ == like_escaped(text@),
{
    let count = text.unicode_len();
    let mut escaped = String::new();
    let mut i: usize = 0;
    proof {
        reveal_strlit("\\");
    }
    while i < count
        invariant
            count == text@.len(),
            i <= count,
            escaped@ == like_escaped(text@.subrange(0, i as int)),
            "\\"@ == seq!['\\'],
        decreases count - i,
    {
        let c = text.get_char(i);
        let ghost before = text@.subrange(0, i as int);
        let ghost upto = text@.subrange(0, i + 1);
        assert(upto.drop_last() =~= before);
        assert(upto.last() == c);
        if c == '\\' || c == '%' || c == '_' {
            escaped.append("\\");
        }
        escaped.append(text.substring_char(i, i + 1));
        assert(text@.subrange(i as int, i + 1) =~= seq![c]);
        assert(escaped@ =~= like_escaped(upto));
        i = i + 1;
    }
    assert(text@.subrange(0, count as int) =~= text@);
    escaped
}

/// Builds the pattern under which a search term is looked up.
pub fn search_pattern(term: &str) -> (pattern: String)
    ensures
        pattern@ == contains_pattern(term@),
{
    let mut pattern = String::from_str("%");
    let escaped = escape_like(trim(term));
    pattern.append(escaped.as_str());
    pattern.append("%");
    proof {
        reveal_strlit("%");
    }
    assert(pattern@ =~= contains_pattern(term@));
    pattern
}

/// The texts of a sequence of strings.
pub open spec fn texts_of(lines: Seq<String>) -> Seq<Seq<char>> {
    lines.map_values(|line: String| line@)
}

/// A count one higher, unless it is the highest a count can be.
pub open spec fn one_more(count: usize) -> usize {
    if count < usize::MAX {
        (count + 1) as usize
    } else {
        count
    }
}

/// Whether two texts are the same.
pub fn same_text(a: &str, b: &str) -> (same: bool)
    ensures
        same == (a@ == b@),
{
    String::from_str(a) == String::from_str(b)
}

} // verus!
