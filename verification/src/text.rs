//! Small text helpers shared by the request builders.

use vstd::prelude::*;
use vstd::string::*;

verus! {

/// The characters that count as white space: the control characters from
/// tab to carriage return, the space, the next-line character, and the
/// space, line and paragraph separators of Unicode.
pub open spec fn white_space(c: char) -> bool {
    let n = c as u32;
    ||| 0x09 <= n <= 0x0D
    ||| n == 0x20
    ||| n == 0x85
    ||| n == 0xA0
    ||| n == 0x1680
    ||| 0x2000 <= n <= 0x200A
    ||| n == 0x2028
    ||| n == 0x2029
    ||| n == 0x202F
    ||| n == 0x205F
    ||| n == 0x3000
}

/// A text is blank when it is empty or holds white space only.
pub open spec fn blank(text: Seq<char>) -> bool {
    forall|i: int| 0 <= i < text.len() ==> white_space(#[trigger] text[i])
}

/// Tells whether `c` is a white-space character.
pub fn is_white_space(c: char) -> (b: bool)
    ensures
        b == white_space(c),
{
    let n: u32 = c as u32;
    (0x09 <= n && n <= 0x0D) || n == 0x20 || n == 0x85 || n == 0xA0 || n == 0x1680 || (0x2000 <= n
        && n <= 0x200A) || n == 0x2028 || n == 0x2029 || n == 0x202F || n == 0x205F || n == 0x3000
}

/// Tells whether `text` is empty or made of white space only.
pub fn is_blank(text: &str) -> (b: bool)
    ensures
        b == blank(text@),
{
    let mut all: bool = true;
    for c in it: text.chars()
        invariant
            it.seq() == text@,
            all == (forall|i: int| 0 <= i < it.index() ==> white_space(#[trigger] text@[i])),
    {
        all = all && is_white_space(c);
    }
    all
}

/// The values that switch a flag on: `1`, `true` and `TRUE`.
pub open spec fn flag_on(value: Seq<char>) -> bool {
    value == "1"@ || value == "true"@ || value == "TRUE"@
}

/// Tells whether `value` switches a flag on. Only `1`, `true` and `TRUE`
/// do; any other text, `True` too, leaves it off.
pub fn is_flag_on(value: &str) -> (on: bool)
    ensures
        on == flag_on(value@),
{
    let given = value.to_owned();
    given == "1".to_owned() || given == "true".to_owned() || given == "TRUE".to_owned()
}

/// `key` without its first character when that is a slash, else `key`
/// itself: one leading slash is dropped, a second one stays.
pub open spec fn without_leading_slash(key: Seq<char>) -> Seq<char> {
    if key.len() > 0 && key[0] == '/' {
        key.subrange(1, key.len() as int)
    } else {
        key
    }
}

/// Drops one leading slash from `key`, if it has one.
pub fn strip_leading_slash(key: &str) -> (rest: &str)
    ensures
        rest@ == without_leading_slash(key@),
{
    let n: usize = key.unicode_len();
    if n > 0 && key.get_char(0) == '/' {
        key.substring_char(1, n)
    } else {
        key
    }
}

/// The ten decimal digits, in order.
pub open spec fn digits() -> Seq<char> {
    seq!['0', '1', '2', '3', '4', '5', '6', '7', '8', '9']
}

/// The decimal numeral of `n`, without sign or leading zeros.
pub open spec fn decimal(n: nat) -> Seq<char>
    decreases n,
{
    if n < 10 {
        seq![digits()[n as int]]
    } else {
        decimal(n / 10).push(digits()[(n % 10) as int])
    }
}

fn digit_text(d: u16) -> (text: &'static str)
    requires
        d < 10,
    ensures
        text@ == seq![digits()[d as int]],
{
    proof {
        reveal_strlit("0");
        reveal_strlit("1");
        reveal_strlit("2");
        reveal_strlit("3");
        reveal_strlit("4");
        reveal_strlit("5");
        reveal_strlit("6");
        reveal_strlit("7");
        reveal_strlit("8");
        reveal_strlit("9");
    }
    let text = match d {
        0 => "0",
        1 => "1",
        2 => "2",
        3 => "3",
        4 => "4",
        5 => "5",
        6 => "6",
        7 => "7",
        8 => "8",
        _ => "9",
    };
    assert(text@ =~= seq![digits()[d as int]]);
    text
}

/// Writes `n` as a decimal numeral.
pub fn decimal_text(n: u16) -> (text: String)
    ensures
        text@ == decimal(n as nat),
    decreases n,
{
    if n < 10 {
        digit_text(n).to_owned()
    } else {
        let mut text = decimal_text(n / 10);
        let last = digit_text(n % 10);
        text.append(last);
        assert(text@ =~= decimal(n as nat));
        text
    }
}

/// `needle` occurs in `hay` as a run of neighbouring characters.
pub open spec fn occurs_in(needle: Seq<char>, hay: Seq<char>) -> bool {
    exists|i: int|
        0 <= i && i + needle.len() <= hay.len() && #[trigger] hay.subrange(i, i + needle.len())
            == needle
}

/// Whatever stands between a prefix and a suffix occurs in the whole.
pub proof fn lemma_middle_occurs(before: Seq<char>, middle: Seq<char>, after: Seq<char>)
    ensures
        occurs_in(middle, before + middle + after),
{
    let hay = before + middle + after;
    let i = before.len() as int;
    assert(hay.subrange(i, i + middle.len()) =~= middle);
}

} // verus!
