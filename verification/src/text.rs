//! Small text operations, stated over sequences of characters.

use vstd::prelude::*;
use vstd::string::StrSliceExecFns;
use vstd::string::StringExecFns;

verus! {

/// Whether the two texts hold the same characters.
pub fn same_text(a: &str, b: &str) -> (same: bool)
    ensures
        same == (a@ == b@),
{
    a.to_owned() == b.to_owned()
}

/// Whether `text` begins with `prefix`.
pub fn starts_with(text: &str, prefix: &str) -> (found: bool)
    ensures
        found == prefix@.is_prefix_of(text@),
{
    let len: usize = prefix.unicode_len();
    if text.unicode_len() < len {
        return false;
    }
    same_text(text.substring_char(0, len), prefix)
}

/// Whether `wanted` is one of the characters of `text`.
pub fn contains_char(text: &str, wanted: char) -> (found: bool)
    ensures
        found == text@.contains(wanted),
{
    for c in it: text.chars()
        invariant
            it.seq() == text@,
            forall|i: int| 0 <= i < it.index() ==> text@[i] != wanted,
    {
        if c == wanted {
            assert(text@[it.index() as int] == wanted);
            return true;
        }
    }
    false
}

/// The characters of a text, one by one.
pub fn chars_of(text: &str) -> (chars: Vec<char>)
    ensures
        chars@ == text@,
{
    let mut chars: Vec<char> = Vec::new();
    for c in it: text.chars()
        invariant
            it.seq() == text@,
            chars@ == text@.take(it.index()),
    {
        chars.push(c);
        assert(chars@ =~= text@.take(it.index() + 1));
    }
    assert(text@.take(text@.len() as int) =~= text@);
    chars
}

/// The characters with the Unicode property `White_Space`.
pub open spec fn is_white_space(c: char) -> bool {
    let n = c as u32;
    ||| 0x09 <= n <= 0x0d
    ||| n == 0x20 || n == 0x85 || n == 0xa0 || n == 0x1680
    ||| 0x2000 <= n <= 0x200a
    ||| n == 0x2028 || n == 0x2029 || n == 0x202f || n == 0x205f || n == 0x3000
}

fn is_space(c: char) -> (space: bool)
    ensures
        space == is_white_space(c),
{
    let n: u32 = c as u32;
    (0x09 <= n && n <= 0x0d) || n == 0x20 || n == 0x85 || n == 0xa0 || n == 0x1680 || (0x2000 <= n
        && n <= 0x200a) || n == 0x2028 || n == 0x2029 || n == 0x202f || n == 0x205f || n == 0x3000
}

/// The text without the white space at its end.
pub open spec fn trimmed_end(text: Seq<char>) -> Seq<char>
    decreases text.len(),
{
    if text.len() > 0 && is_white_space(text.last()) {
        trimmed_end(text.drop_last())
    } else {
        text
    }
}

/// White space after a text does not change what is left of it when the
/// trailing white space is taken off.
pub proof fn lemma_trimmed_end(text: Seq<char>, space: Seq<char>)
    requires
        forall|i: int| 0 <= i < space.len() ==> is_white_space(#[trigger] space[i]),
    ensures
        trimmed_end(text + space) == trimmed_end(text),
    decreases space.len(),
{
    if space.len() == 0 {
        assert(text + space =~= text);
    } else {
        assert((text + space).drop_last() =~= text + space.drop_last());
        assert((text + space).last() == space[space.len() - 1]);
        lemma_trimmed_end(text, space.drop_last());
    }
}

/// Takes the white space off the end of a text.
pub fn trim_end(text: &str) -> (trimmed: &str)
    ensures
        trimmed@ == trimmed_end(text@),
{
    let len: usize = text.unicode_len();
    let mut end: usize = 0;
    let mut seen: usize = 0;
    for c in it: text.chars()
        invariant
            it.seq() == text@,
            len == text@.len(),
            seen == it.index(),
            end <= seen <= len,
            end > 0 ==> !is_white_space(text@[end - 1]),
            forall|i: int| end <= i < seen ==> is_white_space(#[trigger] text@[i]),
    {
        assert(c == text@[seen as int]);
        seen = seen + 1;
        if !is_space(c) {
            end = seen;
        }
    }
    proof {
        let (kept, space) = (text@.take(end as int), text@.skip(end as int));
        assert(kept + space =~= text@);
        lemma_trimmed_end(kept, space);
        assert(text@.subrange(0, end as int) =~= kept);
    }
    text.substring_char(0, end)
}

/// The two texts one after the other.
pub fn concat2(a: &str, b: &str) -> (whole: String)
    ensures
        whole@ == a@ + b@,
{
    let mut whole: String = a.to_owned();
    whole.append(b);
    whole
}

/// The three texts one after the other.
pub fn concat3(a: &str, b: &str, c: &str) -> (whole: String)
    ensures
        whole@ == a@ + b@ + c@,
{
    let mut whole: String = a.to_owned();
    whole.append(b);
    whole.append(c);
    whole
}

/// The decimal digit of a number below ten.
pub open spec fn digit(n: int) -> char {
    (('0' as int) + n) as char
}

/// A byte in decimal, without leading zeros.
pub open spec fn decimal(n: u8) -> Seq<char> {
    if n < 10 {
        seq![digit(n as int)]
    } else if n < 100 {
        seq![digit(n as int / 10), digit(n as int % 10)]
    } else {
        seq![digit(n as int / 100), digit(n as int / 10 % 10), digit(n as int % 10)]
    }
}

fn digit_text(n: u8) -> (text: &'static str)
    requires
        n < 10,
    ensures
        text@ == seq![digit(n as int)],
{
    proof {
        reveal_strlit("0");
        reveal_strlit("1");
        reveal_strlit("2");
        reveal_strlit("3");
        reveal_strlit("4");
        reveal_strlit("5");
        reveal_strlit("6");
        reveal_strlit("7");
        reveal_strlit("8");
        reveal_strlit("9");
    }
    match n {
        0 => "0",
        1 => "1",
        2 => "2",
        3 => "3",
        4 => "4",
        5 => "5",
        6 => "6",
        7 => "7",
        8 => "8",
        _ => "9",
    }
}

/// Writes a byte in decimal.
pub fn decimal_text(n: u8) -> (text: String)
    ensures
        text@ == decimal(n),
{
    if n < 10 {
        digit_text(n).to_owned()
    } else if n < 100 {
        concat2(digit_text(n / 10), digit_text(n % 10))
    } else {
        concat3(digit_text(n / 100), digit_text(n / 10 % 10), digit_text(n % 10))
    }
}

/// The number that a text of digits stands for.
pub open spec fn number_of(text: Seq<char>) -> int
    decreases text.len(),
{
    if text.len() == 0 {
        0
    } else {
        number_of(text.drop_last()) * 10 + (text.last() as int - '0' as int)
    }
}

/// A byte that is written in decimal can be read back, is made of digits, and has
/// no leading zeros.
pub proof fn law_decimal_can_be_read_back(n: u8, text: String)
    requires
        call_ensures(decimal_text, (n,), text),
    ensures
        text@ == decimal(n),
        number_of(text@) == n,
        text@.len() > 0,
        text@.len() > 1 ==> text@[0] != '0',
        forall|i: int| 0 <= i < text@.len() ==> '0' <= #[trigger] text@[i] <= '9',
{
    reveal_with_fuel(number_of, 4);
    let t = text@;
    if n < 10 {
        assert(t.drop_last().len() == 0);
    } else if n < 100 {
        assert(t.drop_last() =~= seq![digit(n as int / 10)]);
        assert(t.drop_last().drop_last().len() == 0);
    } else {
        assert(t.drop_last() =~= seq![digit(n as int / 100), digit(n as int / 10 % 10)]);
        assert(t.drop_last().drop_last() =~= seq![digit(n as int / 100)]);
        assert(t.drop_last().drop_last().drop_last().len() == 0);
    }
}

/// Trimming takes off white space alone, and all of it that stands at the end.
pub proof fn law_trimming_takes_off_white_space(text: &str, trimmed: &str)
    requires
        call_ensures(trim_end, (text,), trimmed),
    ensures
        trimmed@.len() <= text@.len(),
        text@.take(trimmed@.len() as int) == trimmed@,
        forall|i: int| trimmed@.len() <= i < text@.len() ==> is_white_space(#[trigger] text@[i]),
        trimmed@.len() > 0 ==> !is_white_space(trimmed@.last()),
{
    lemma_trimmed_is_prefix(text@);
}

pub proof fn lemma_trimmed_is_prefix(text: Seq<char>)
    ensures
        trimmed_end(text).len() <= text.len(),
        text.take(trimmed_end(text).len() as int) == trimmed_end(text),
        forall|i: int|
            trimmed_end(text).len() <= i < text.len() ==> is_white_space(#[trigger] text[i]),
        trimmed_end(text).len() > 0 ==> !is_white_space(trimmed_end(text).last()),
    decreases text.len(),
{
    if text.len() > 0 && is_white_space(text.last()) {
        let rest = text.drop_last();
        lemma_trimmed_is_prefix(rest);
        assert(text.take(trimmed_end(rest).len() as int) =~= rest.take(
            trimmed_end(rest).len() as int,
        ));
        assert forall|i: int| trimmed_end(text).len() <= i < text.len() implies is_white_space(
            #[trigger] text[i],
        ) by {
            if i < rest.len() {
                assert(text[i] == rest[i]);
            }
        }
    } else {
        assert(text.take(text.len() as int) =~= text);
    }
}

/// Spaces, tabs and line ends are white space, and no visible character of ASCII
/// is.
pub proof fn law_visible_ascii_is_no_white_space(c: char)
    ensures
        '!' <= c <= '~' ==> !is_white_space(c),
        c == ' ' || c == '\t' || c == '\n' || c == '\r' ==> is_white_space(c),
{
}

} // verus!
