//! Text helpers: equality, affixes, joining and decimal spellings of `str` and `String`.

use vstd::prelude::*;
use vstd::string::*;
use vstd::utf8::*;

verus! {

/// `text` begins with `prefix`.
pub open spec fn has_prefix(text: Seq<char>, prefix: Seq<char>) -> bool {
    prefix.len() <= text.len() && text.take(prefix.len() as int) == prefix
}

/// `text` ends with `suffix`.
pub open spec fn has_suffix(text: Seq<char>, suffix: Seq<char>) -> bool {
    suffix.len() <= text.len() && text.skip(text.len() - suffix.len()) == suffix
}

/// `text` without the `c` characters at its end.
pub open spec fn without_trailing(text: Seq<char>, c: char) -> Seq<char>
    decreases text.len(),
{
    if text.len() > 0 && text.last() == c {
        without_trailing(text.drop_last(), c)
    } else {
        text
    }
}

/// The decimal digits of a natural number, most significant first.
pub open spec fn decimal_digits(n: nat) -> Seq<char>
    decreases n,
{
    let digit = (('0' as u32) + n % 10) as char;
    if n < 10 {
        seq![digit]
    } else {
        decimal_digits(n / 10).push(digit)
    }
}

/// The decimal spelling of an integer, with a leading `-` when it is negative.
pub open spec fn decimal(n: int) -> Seq<char> {
    if n < 0 {
        seq!['-'] + decimal_digits((-n) as nat)
    } else {
        decimal_digits(n as nat)
    }
}

/// The lines joined by a separator.
pub open spec fn joined(lines: Seq<Seq<char>>, separator: Seq<char>) -> Seq<char>
    decreases lines.len(),
{
    if lines.len() == 0 {
        seq![]
    } else if lines.len() == 1 {
        lines[0]
    } else {
        joined(lines.drop_last(), separator) + separator + lines.last()
    }
}

/// The contents of a sequence of strings.
pub open spec fn texts(lines: Seq<String>) -> Seq<Seq<char>> {
    lines.map_values(|line: String| line@)
}

/// The content of an optional string.
pub open spec fn opt_text(text: Option<String>) -> Option<Seq<char>> {
    match text {
        Some(text) => Some(text@),
        None => None,
    }
}

/// Whether two texts are equal.
pub fn same_text(a: &str, b: &str) -> (same: bool)
    ensures
        same == (a@ == b@),
{
    let left = a.as_bytes();
    let right = b.as_bytes();
    proof {
        encode_utf8_decode_utf8(a@);
        encode_utf8_decode_utf8(b@);
    }
    if left.len() != right.len() {
        return false;
    }
    let mut i: usize = 0;
    while i < left.len()
        invariant
            left@ == encode_utf8(a@),
            right@ == encode_utf8(b@),
            left@.len() == right@.len(),
            i <= left@.len(),
            left@.take(i as int) == right@.take(i as int),
        decreases left@.len() - i,
    {
        if left[i] != right[i] {
            return false;
        }
        proof {
            assert(left@.take(i + 1) =~= left@.take(i as int).push(left@[i as int]));
            assert(right@.take(i + 1) =~= right@.take(i as int).push(right@[i as int]));
        }
        i += 1;
    }
    proof {
        assert(left@.take(i as int) =~= left@);
        assert(right@.take(i as int) =~= right@);
    }
    true
}

/// The characters of `text`, in order.
pub fn to_chars(text: &str) -> (chars: Vec<char>)
    ensures
        chars@ == text@,
{
    let mut chars: Vec<char> = Vec::new();
    for c in it: text.chars()
        invariant
            it.seq() == text@,
            chars@ == text@.take(it.index()),
    {
        chars.push(c);
        assert(text@.take(it.index() + 1) =~= text@.take(it.index()).push(c));
    }
    assert(text@.take(text@.len() as int) =~= text@);
    chars
}

/// Whether `text` begins with `prefix`.
pub fn starts_with(text: &str, prefix: &str) -> (found: bool)
    ensures
        found == has_prefix(text@, prefix@),
{
    let size = prefix.unicode_len();
    if text.unicode_len() < size {
        return false;
    }
    same_text(text.substring_char(0, size), prefix)
}

/// Whether `text` ends with `suffix`.
pub fn ends_with(text: &str, suffix: &str) -> (found: bool)
    ensures
        found == has_suffix(text@, suffix@),
{
    let total = text.unicode_len();
    let size = suffix.unicode_len();
    if total < size {
        return false;
    }
    same_text(text.substring_char(total - size, total), suffix)
}

/// `text` without the `c` characters at its end.
pub fn trim_trailing(text: &str, c: char) -> (trimmed: String)
    ensures
        trimmed@ == without_trailing(text@, c),
{
    let chars = to_chars(text);
    let mut end: usize = chars.len();
    assert(text@.take(end as int) =~= text@);
    while end > 0 && chars[end - 1] == c
        invariant
            chars@ == text@,
            end <= chars@.len(),
            without_trailing(text@, c) == without_trailing(text@.take(end as int), c),
        decreases end,
    {
        assert(text@.take(end as int).drop_last() =~= text@.take(end - 1));
        end -= 1;
    }
    assert(text@.subrange(0, end as int) =~= text@.take(end as int));
    text.substring_char(0, end).to_owned()
}

/// The lines joined by a separator.
pub fn join(lines: &Vec<String>, separator: &str) -> (text: String)
    ensures
        text@ == joined(texts(lines@), separator@),
{
    let mut text = String::new();
    let mut i: usize = 0;
    while i < lines.len()
        invariant
            i <= lines@.len(),
            text@ == joined(texts(lines@).take(i as int), separator@),
        decreases lines@.len() - i,
    {
        if i > 0 {
            text.append(separator);
        }
        text.append(lines[i].as_str());
        assert(texts(lines@).take(i + 1).drop_last() =~= texts(lines@).take(i as int));
        i += 1;
    }
    assert(texts(lines@).take(lines@.len() as int) =~= texts(lines@));
    text
}

/// A copy of the lines.
pub fn copy_texts(lines: &Vec<String>) -> (copy: Vec<String>)
    ensures
        texts(copy@) == texts(lines@),
{
    let mut copy: Vec<String> = Vec::new();
    let mut i: usize = 0;
    while i < lines.len()
        invariant
            i <= lines@.len(),
            copy@ == lines@.take(i as int),
        decreases lines@.len() - i,
    {
        copy.push(lines[i].clone());
        assert(lines@.take(i + 1) =~= lines@.take(i as int).push(lines@[i as int]));
        i += 1;
    }
    assert(lines@.take(lines@.len() as int) =~= lines@);
    copy
}

/// The one-character text of a decimal digit.
fn digit_text(digit: u64) -> (text: &'static str)
    requires
        digit < 10,
    ensures
        text@ == seq![(('0' as u32) + digit) as char],
{
    proof {
        reveal_strlit("0");
        reveal_strlit("1");
        reveal_strlit("2");
        reveal_strlit("3");
        reveal_strlit("4");
        reveal_strlit("5");
        reveal_strlit("6");
        reveal_strlit("7");
        reveal_strlit("8");
        reveal_strlit("9");
    }
    let text = match digit {
        0 => "0",
        1 => "1",
        2 => "2",
        3 => "3",
        4 => "4",
        5 => "5",
        6 => "6",
        7 => "7",
        8 => "8",
        _ => "9",
    };
    assert(text@ =~= seq![(('0' as u32) + digit) as char]);
    text
}

/// The decimal spelling of a natural number.
pub fn decimal_u64(n: u64) -> (text: String)
    ensures
        text@ == decimal(n as int),
    decreases n,
{
    if n < 10 {
        digit_text(n).to_owned()
    } else {
        let mut text = decimal_u64(n / 10);
        text.append(digit_text(n % 10));
        assert(text@ =~= decimal(n as int));
        text
    }
}

/// The decimal spelling of an integer.
pub fn decimal_i64(n: i64) -> (text: String)
    ensures
        text@ == decimal(n as int),
{
    if n >= 0 {
        decimal_u64(n as u64)
    } else {
        let mut text = "-".to_owned();
        text.append(decimal_u64((-(n as i128)) as u64).as_str());
        proof {
            reveal_strlit("-");
        }
        assert(text@ =~= decimal(n as int));
        text
    }
}

/// Whether a list of strings holds a text.
pub fn lists_text(lines: &Vec<String>, text: &str) -> (listed: bool)
    ensures
        listed == texts(lines@).contains(text@),
{
    let mut i: usize = 0;
    while i < lines.len()
        invariant
            i <= lines@.len(),
            forall|j: int| 0 <= j < i ==> #[trigger] texts(lines@)[j] != text@,
        decreases lines@.len() - i,
    {
        if same_text(lines[i].as_str(), text) {
            assert(texts(lines@)[i as int] == text@);
            return true;
        }
        i += 1;
    }
    false
}

/// A text begins with a prefix exactly when it is the prefix and then something.
pub proof fn law_a_prefix_comes_first(prefix: Seq<char>, rest: Seq<char>, text: Seq<char>)
    ensures
        has_prefix(prefix + rest, prefix),
        has_prefix(text, prefix) ==> text == prefix + text.skip(prefix.len() as int),
        text.len() < prefix.len() ==> !has_prefix(text, prefix),
{
    assert((prefix + rest).take(prefix.len() as int) =~= prefix);
    if has_prefix(text, prefix) {
        assert(text =~= text.take(prefix.len() as int) + text.skip(prefix.len() as int));
    }
}

/// A text ends with a suffix exactly when it is something and then the suffix.
pub proof fn law_a_suffix_comes_last(start: Seq<char>, suffix: Seq<char>, text: Seq<char>)
    ensures
        has_suffix(start + suffix, suffix),
        has_suffix(text, suffix) ==> text == text.take(text.len() - suffix.len()) + suffix,
        text.len() < suffix.len() ==> !has_suffix(text, suffix),
{
    assert((start + suffix).skip((start + suffix).len() - suffix.len()) =~= suffix);
    if has_suffix(text, suffix) {
        let n = text.len() - suffix.len();
        assert(text =~= text.take(n) + text.skip(n));
    }
}

/// Trimming takes the character from the end as often as it stands there, and nothing else.
pub proof fn law_trimming_takes_only_the_end(text: Seq<char>, c: char)
    ensures
        without_trailing(text, c).len() <= text.len(),
        text.take(without_trailing(text, c).len() as int) == without_trailing(text, c),
        forall|i: int| without_trailing(text, c).len() <= i < text.len() ==> #[trigger] text[i] == c,
        without_trailing(text, c).len() > 0 ==> without_trailing(text, c).last() != c,
    decreases text.len(),
{
    if text.len() > 0 && text.last() == c {
        let rest = text.drop_last();
        law_trimming_takes_only_the_end(rest, c);
        let kept = without_trailing(text, c);
        assert(text.take(kept.len() as int) =~= rest.take(kept.len() as int));
        assert forall|i: int| kept.len() <= i < text.len() implies #[trigger] text[i] == c by {
            if i < rest.len() {
                assert(text[i] == rest[i]);
            }
        }
    } else {
        assert(text.take(text.len() as int) =~= text);
    }
}

/// The number that a row of digits stands for.
pub open spec fn digits_value(digits: Seq<char>) -> int
    decreases digits.len(),
{
    if digits.len() == 0 {
        0
    } else {
        10 * digits_value(digits.drop_last()) + (digits.last() as int - '0' as int)
    }
}

/// The decimal spelling of a number consists of digits, reads back as the number, and has no zero
/// in front unless the number is zero. A negative number has a minus sign in front.
pub proof fn law_decimals_read_back(n: nat)
    ensures
        digits_value(decimal(n as int)) == n,
        decimal(n as int).len() > 0,
        forall|i: int|
            0 <= i < decimal(n as int).len() ==> '0' <= #[trigger] decimal(n as int)[i] <= '9',
        n > 0 ==> decimal(n as int)[0] != '0',
        n > 0 ==> decimal(-n) == seq!['-'] + decimal(n as int),
    decreases n,
{
    let digit = (('0' as u32) + n % 10) as char;
    let all = decimal(n as int);
    assert('0' as int <= digit as int <= '9' as int);
    if n < 10 {
        assert(all =~= seq![digit]);
        assert(all.drop_last() =~= seq![]);
        assert(digits_value(seq![]) == 0);
    } else {
        law_decimals_read_back(n / 10);
        let front = decimal((n / 10) as int);
        assert(all =~= front.push(digit));
        assert(all.drop_last() =~= front);
        assert(all[0] == front[0]);
    }
}

/// Lines are joined by one separator between each two, and none at either end.
pub proof fn law_joining_separates_each_two(
    first: Seq<Seq<char>>,
    second: Seq<Seq<char>>,
    line: Seq<char>,
    separator: Seq<char>,
)
    ensures
        joined(seq![line], separator) == line,
        joined(seq![], separator) == Seq::<char>::empty(),
        first.len() > 0 && second.len() > 0 ==> joined(first + second, separator) == joined(
            first,
            separator,
        ) + separator + joined(second, separator),
    decreases second.len(),
{
    if first.len() > 0 && second.len() > 0 {
        let all = first + second;
        assert(all.drop_last() =~= first + second.drop_last());
        assert(all.last() == second.last());
        if second.len() == 1 {
            assert(first + second.drop_last() =~= first);
            assert(joined(second, separator) == second[0]);
        } else {
            law_joining_separates_each_two(first, second.drop_last(), line, separator);
            assert(joined(all, separator) =~= joined(first, separator) + separator + joined(
                second,
                separator,
            ));
        }
    }
}

/// The contents of strings are theirs, one for one.
pub proof fn law_texts_are_one_for_one(lines: Seq<String>, i: int)
    ensures
        texts(lines).len() == lines.len(),
        0 <= i < lines.len() ==> texts(lines)[i] == lines[i]@,
{
}

/// The tests on texts say what they test, and the writers of texts write what they are given.
pub proof fn law_text_functions_do_what_they_say(
    a: &str,
    b: &str,
    same: bool,
    starts: bool,
    ends: bool,
    c: char,
    trimmed: String,
    lines: Vec<String>,
    text: String,
    n: i64,
    spelled: String,
    m: u64,
    counted: String,
    listed: bool,
)
    requires
        call_ensures(same_text, (a, b), same),
        call_ensures(starts_with, (a, b), starts),
        call_ensures(ends_with, (a, b), ends),
        call_ensures(trim_trailing, (a, c), trimmed),
        call_ensures(join, (&lines, b), text),
        call_ensures(decimal_i64, (n,), spelled),
        call_ensures(decimal_u64, (m,), counted),
        call_ensures(lists_text, (&lines, a), listed),
    ensures
        same <==> a@ == b@,
        starts <==> b@.len() <= a@.len() && a@.subrange(0, b@.len() as int) == b@,
        ends <==> b@.len() <= a@.len() && a@.subrange(a@.len() - b@.len(), a@.len() as int) == b@,
        trimmed@ == without_trailing(a@, c),
        text@ == joined(texts(lines@), b@),
        spelled@ == decimal(n as int),
        counted@ == decimal(m as int),
        listed <==> exists|i: int| 0 <= i < lines@.len() && (#[trigger] lines@[i])@ == a@,
{
    if b@.len() <= a@.len() {
        assert(a@.take(b@.len() as int) =~= a@.subrange(0, b@.len() as int));
        assert(a@.skip(a@.len() - b@.len()) =~= a@.subrange(
            a@.len() - b@.len(),
            a@.len() as int,
        ));
    }
    if listed {
        let i = choose|i: int| 0 <= i < texts(lines@).len() && texts(lines@)[i] == a@;
        assert(lines@[i]@ == a@);
    }
    if exists|i: int| 0 <= i < lines@.len() && (#[trigger] lines@[i])@ == a@ {
        let i = choose|i: int| 0 <= i < lines@.len() && (#[trigger] lines@[i])@ == a@;
        assert(texts(lines@)[i] == a@);
    }
}

/// A text is its characters, and a copy of texts is the same texts.
pub proof fn law_copies_of_texts_are_the_texts(
    text: &str,
    chars: Vec<char>,
    lines: Vec<String>,
    copy: Vec<String>,
    i: int,
)
    requires
        call_ensures(to_chars, (text,), chars),
        call_ensures(copy_texts, (&lines,), copy),
    ensures
        chars@ == text@,
        copy@.len() == lines@.len(),
        0 <= i < lines@.len() ==> copy@[i]@ == lines@[i]@,
{
    assert(texts(copy@).len() == copy@.len());
    if 0 <= i < lines@.len() {
        assert(texts(copy@)[i] == texts(lines@)[i]);
    }
}

} // verus!
