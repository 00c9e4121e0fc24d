//! Text: equality, prefixes, joining and decimal numerals over `Seq<char>`.
use vstd::prelude::*;
use vstd::string::*;
use vstd::utf8::encode_utf8_decode_utf8;

verus! {

/// `String::push` appends one character to the text.
pub assume_specification[ std::string::String::push ](buffer: &mut std::string::String, ch: char)
    ensures
        final(buffer)@ == old(buffer)@.push(ch),
;

/// The parts in order, with `separator` between each two neighbours.
pub open spec fn joined(parts: Seq<Seq<char>>, separator: Seq<char>) -> Seq<char>
    decreases parts.len(),
{
    if parts.len() == 0 {
        Seq::empty()
    } else if parts.len() == 1 {
        parts[0]
    } else {
        joined(parts.drop_last(), separator) + separator + parts.last()
    }
}

/// The decimal digit that stands for `n`.
pub open spec fn digit(n: nat) -> char {
    (('0' as u32) + n) as char
}

/// The decimal numeral of `n`, without leading zeros.
pub open spec fn decimal(n: nat) -> Seq<char>
    decreases n,
{
    if n < 10 {
        seq![digit(n)]
    } else {
        decimal(n / 10).push(digit(n % 10))
    }
}

/// The decimal numeral of `n`, with a minus sign before that of a negative number.
pub open spec fn signed_decimal(n: int) -> Seq<char> {
    if n < 0 {
        seq!['-'] + decimal((-n) as nat)
    } else {
        decimal(n as nat)
    }
}

/// The views of a list of strings.
pub open spec fn text_views(parts: Seq<String>) -> Seq<Seq<char>> {
    parts.map_values(|part: String| part@)
}

/// The views of a list of string literals.
pub open spec fn literal_views(parts: Seq<&'static str>) -> Seq<Seq<char>> {
    parts.map_values(|part: &'static str| part@)
}

/// The view of an optional string.
pub open spec fn optional_text(text: Option<String>) -> Option<Seq<char>> {
    match text {
        Some(t) => Some(t@),
        None => None,
    }
}

/// Two byte strings of one length are equal exactly when no position differs.
fn same_bytes(a: &[u8], b: &[u8]) -> (same: bool)
    ensures
        same == (a@ == b@),
{
    if a.len() != b.len() {
        return false;
    }
    let mut i: usize = 0;
    while i < a.len()
        invariant
            i <= a@.len(),
            a@.len() == b@.len(),
            forall|j: int| 0 <= j < i ==> a@[j] == b@[j],
        decreases a@.len() - i,
    {
        if a[i] != b[i] {
            return false;
        }
        i = i + 1;
    }
    assert(a@ =~= b@);
    true
}

/// Whether two texts are equal.
pub fn same_text(a: &str, b: &str) -> (same: bool)
    ensures
        same == (a@ == b@),
{
    let same = same_bytes(a.as_bytes(), b.as_bytes());
    proof {
        encode_utf8_decode_utf8(a@);
        encode_utf8_decode_utf8(b@);
    }
    same
}

/// The characters of a text.
pub fn characters(text: &str) -> (chars: Vec<char>)
    ensures
        chars@ == text@,
{
    let mut chars: Vec<char> = Vec::new();
    for c in it: text.chars()
        invariant
            chars@ == it.seq().take(it.index() as int),
            it.seq() == text@,
    {
        chars.push(c);
        assert(it.seq().take(it.index() + 1) =~= it.seq().take(it.index() as int).push(c));
    }
    assert(text@.take(text@.len() as int) =~= text@);
    chars
}

/// Whether `text` begins with `prefix`.
pub fn begins_with(text: &str, prefix: &str) -> (begins: bool)
    ensures
        begins == prefix@.is_prefix_of(text@),
{
    let whole: Vec<char> = characters(text);
    let start: Vec<char> = characters(prefix);
    if start.len() > whole.len() {
        return false;
    }
    let mut i: usize = 0;
    while i < start.len()
        invariant
            i <= start@.len() <= whole@.len(),
            start@ == prefix@,
            whole@ == text@,
            forall|j: int| 0 <= j < i ==> start@[j] == whole@[j],
        decreases start@.len() - i,
    {
        if start[i] != whole[i] {
            assert(text@.take(prefix@.len() as int)[i as int] != prefix@[i as int]);
            return false;
        }
        i = i + 1;
    }
    assert(prefix@ =~= text@.take(prefix@.len() as int));
    true
}

/// What stands behind `prefix` in `text`, where `text` begins with it.
pub fn without_prefix(text: &str, prefix: &str) -> (rest: Option<String>)
    ensures
        optional_text(rest) == if prefix@.is_prefix_of(text@) {
            Some(text@.skip(prefix@.len() as int))
        } else {
            None
        },
{
    if begins_with(text, prefix) {
        let from: usize = prefix.unicode_len();
        let to: usize = text.unicode_len();
        let rest = text.substring_char(from, to).to_owned();
        assert(rest@ =~= text@.skip(prefix@.len() as int));
        Some(rest)
    } else {
        None
    }
}

/// The characters of `text` before the first `mark`: all of them where there is none.
pub open spec fn before_mark(text: Seq<char>, mark: char) -> Seq<char>
    decreases text.len(),
{
    if text.len() == 0 || text[0] == mark {
        Seq::empty()
    } else {
        seq![text[0]] + before_mark(text.skip(1), mark)
    }
}

/// The part of `text` before the first `mark`.
pub fn until_mark(text: &str, mark: char) -> (part: String)
    ensures
        part@ == before_mark(text@, mark),
{
    let chars: Vec<char> = characters(text);
    let mut part = String::new();
    let mut i: usize = 0;
    assert(text@.skip(0) =~= text@);
    while i < chars.len() && chars[i] != mark
        invariant
            i <= chars@.len(),
            chars@ == text@,
            before_mark(text@, mark) == part@ + before_mark(text@.skip(i as int), mark),
        decreases chars@.len() - i,
    {
        let ghost rest = text@.skip(i as int);
        assert(rest.skip(1) =~= text@.skip(i + 1));
        part.push(chars[i]);
        i = i + 1;
        assert(before_mark(text@, mark) =~= part@ + before_mark(text@.skip(i as int), mark));
    }
    assert(before_mark(text@, mark) =~= part@);
    part
}

/// `text` without the run of `mark` that it ends with.
pub open spec fn without_trailing(text: Seq<char>, mark: char) -> Seq<char>
    decreases text.len(),
{
    if text.len() > 0 && text.last() == mark {
        without_trailing(text.drop_last(), mark)
    } else {
        text
    }
}

/// Removes the run of `mark` that `text` ends with.
pub fn trim_trailing(text: &str, mark: char) -> (part: String)
    ensures
        part@ == without_trailing(text@, mark),
{
    let chars: Vec<char> = characters(text);
    let mut end: usize = chars.len();
    assert(text@.take(text@.len() as int) =~= text@);
    while end > 0 && chars[end - 1] == mark
        invariant
            end <= chars@.len(),
            chars@ == text@,
            without_trailing(text@, mark) == without_trailing(text@.take(end as int), mark),
        decreases end,
    {
        assert(text@.take(end as int).drop_last() =~= text@.take(end - 1));
        end = end - 1;
    }
    let part = text.substring_char(0, end).to_owned();
    assert(part@ =~= text@.take(end as int));
    part
}

/// Joins the parts with `separator` between each two neighbours.
pub fn join(parts: &Vec<String>, separator: &str) -> (text: String)
    ensures
        text@ == joined(text_views(parts@), separator@),
{
    let mut text = String::new();
    let mut i: usize = 0;
    let ghost views = text_views(parts@);
    assert(views.take(0) =~= Seq::empty());
    while i < parts.len()
        invariant
            i <= parts@.len(),
            views == text_views(parts@),
            text@ == joined(views.take(i as int), separator@),
        decreases parts@.len() - i,
    {
        let ghost before = text@;
        if i > 0 {
            text.append(separator);
        }
        text.append(parts[i].as_str());
        i = i + 1;
        assert(views.take(i as int).drop_last() =~= views.take(i - 1));
        assert(views.take(i as int).last() == parts@[i - 1]@);
        assert(text@ =~= joined(views.take(i as int), separator@));
    }
    assert(views.take(views.len() as int) =~= views);
    text
}

/// The decimal digit that stands for `n`.
fn digit_of(n: u64) -> (c: char)
    requires
        n < 10,
    ensures
        c == digit(n as nat),
{
    match n {
        0 => '0',
        1 => '1',
        2 => '2',
        3 => '3',
        4 => '4',
        5 => '5',
        6 => '6',
        7 => '7',
        8 => '8',
        _ => '9',
    }
}

/// The decimal numeral of `n`.
pub fn decimal_text(n: u64) -> (text: String)
    ensures
        text@ == decimal(n as nat),
    decreases n,
{
    let mut text = if n < 10 {
        String::new()
    } else {
        decimal_text(n / 10)
    };
    text.push(digit_of(n % 10));
    assert(text@ =~= decimal(n as nat));
    text
}

/// The decimal numeral of a signed number.
pub fn signed_decimal_text(n: i64) -> (text: String)
    ensures
        text@ == signed_decimal(n as int),
{
    if n >= 0 {
        decimal_text(n as u64)
    } else {
        let mut text = String::new();
        text.push('-');
        let magnitude: u64 = ((-(n + 1)) as u64) + 1;
        text.append(decimal_text(magnitude).as_str());
        assert(text@ =~= signed_decimal(n as int));
        text
    }
}

/// Joining is what it is of the first parts and of the last ones, with the separator between
/// them. One part is joined to itself, and none to nothing.
pub proof fn law_joining_splits_anywhere(
    first: Seq<Seq<char>>,
    last: Seq<Seq<char>>,
    separator: Seq<char>,
)
    requires
        first.len() > 0,
        last.len() > 0,
    ensures
        joined(first + last, separator) == joined(first, separator) + separator + joined(
            last,
            separator,
        ),
        first.len() == 1 ==> joined(first, separator) == first[0],
        joined(Seq::<Seq<char>>::empty(), separator) == Seq::<char>::empty(),
    decreases last.len(),
{
    let whole = first + last;
    assert(whole.drop_last() =~= first + last.drop_last());
    assert(whole.last() == last.last());
    if last.len() == 1 {
        assert(whole.drop_last() =~= first);
    } else {
        law_joining_splits_anywhere(first, last.drop_last(), separator);
        assert(joined(whole, separator) =~= joined(first, separator) + separator + joined(
            last,
            separator,
        ));
    }
}

/// The number that a decimal numeral stands for.
pub open spec fn numeral_value(numeral: Seq<char>) -> int
    decreases numeral.len(),
{
    if numeral.len() == 0 {
        0
    } else {
        numeral_value(numeral.drop_last()) * 10 + (numeral.last() as int - 48)
    }
}

/// A numeral is made of the digits from `0` to `9`, stands for its number, and begins with a
/// zero only where it is that of zero.
pub proof fn law_numerals_stand_for_their_number(n: nat)
    ensures
        numeral_value(decimal(n)) == n,
        decimal(n).len() > 0,
        forall|i: int| 0 <= i < decimal(n).len() ==> '0' <= #[trigger] decimal(n)[i] <= '9',
        decimal(n)[0] == '0' <==> n == 0,
        n == 0 ==> decimal(n).len() == 1,
    decreases n,
{
    reveal_with_fuel(numeral_value, 2);
    if n < 10 {
        assert(decimal(n).drop_last() =~= Seq::<char>::empty());
        assert(decimal(n).last() as int == 48 + n);
    } else {
        law_numerals_stand_for_their_number(n / 10);
        assert(decimal(n).drop_last() =~= decimal(n / 10));
        assert(decimal(n).last() as int == 48 + n % 10);
        assert(decimal(n)[0] == decimal(n / 10)[0]);
    }
}

/// The numeral of a negative number is that of its magnitude behind a minus sign; any other
/// number is written without a sign.
pub proof fn law_signs_are_written(n: int)
    ensures
        n < 0 ==> signed_decimal(n)[0] == '-' && numeral_value(signed_decimal(n).skip(1)) == -n,
        n >= 0 ==> numeral_value(signed_decimal(n)) == n && signed_decimal(n)[0] != '-',
{
    if n < 0 {
        law_numerals_stand_for_their_number((-n) as nat);
        assert(signed_decimal(n).skip(1) =~= decimal((-n) as nat));
    } else {
        law_numerals_stand_for_their_number(n as nat);
        assert('0' <= decimal(n as nat)[0]);
    }
}

/// What stands before a mark is the beginning of the text, holds no mark, and ends where the
/// text ends or the first mark stands.
pub proof fn law_text_is_cut_at_the_first_mark(text: Seq<char>, mark: char)
    ensures
        before_mark(text, mark).is_prefix_of(text),
        !before_mark(text, mark).contains(mark),
        before_mark(text, mark) != text ==> text[before_mark(text, mark).len() as int] == mark,
    decreases text.len(),
{
    let part = before_mark(text, mark);
    if text.len() == 0 || text[0] == mark {
        assert(part =~= text.take(0));
        if text.len() == 0 {
            assert(part =~= text);
        }
    } else {
        let rest = text.skip(1);
        let tail = before_mark(rest, mark);
        law_text_is_cut_at_the_first_mark(rest, mark);
        assert(tail =~= rest.take(tail.len() as int));
        assert(part =~= text.take(part.len() as int)) by {
            assert forall|i: int| 0 <= i < part.len() implies part[i] == text[i] by {
                if i > 0 {
                    assert(part[i] == tail[i - 1]);
                    assert(tail[i - 1] == rest[i - 1]);
                }
            }
        }
        assert forall|i: int| 0 <= i < part.len() implies part[i] != mark by {
            if i > 0 {
                assert(part[i] == tail[i - 1]);
                assert(tail.contains(tail[i - 1]));
            }
        }
        if tail == rest {
            assert(part =~= text);
        }
    }
}

/// A text without the marks at its end is its beginning, ends with no mark, and what was
/// removed is made of marks only.
pub proof fn law_only_trailing_marks_are_removed(text: Seq<char>, mark: char)
    ensures
        without_trailing(text, mark).is_prefix_of(text),
        without_trailing(text, mark).len() > 0 ==> without_trailing(text, mark).last() != mark,
        forall|i: int|
            without_trailing(text, mark).len() <= i < text.len() ==> #[trigger] text[i] == mark,
    decreases text.len(),
{
    let part = without_trailing(text, mark);
    if text.len() > 0 && text.last() == mark {
        let before = text.drop_last();
        law_only_trailing_marks_are_removed(before, mark);
        assert(part =~= before.take(part.len() as int));
        assert(part =~= text.take(part.len() as int));
        assert forall|i: int| part.len() <= i < text.len() implies #[trigger] text[i] == mark by {
            if i < before.len() {
                assert(before[i] == text[i]);
            }
        }
    } else {
        assert(part =~= text.take(part.len() as int));
    }
}

} // verus!
