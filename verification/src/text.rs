//! Text: comparing, trimming, shortening and composing strings.

use vstd::prelude::*;
use vstd::string::*;

verus! {

/// Whether `a` and `b` hold the same characters.
pub fn same_text(a: &str, b: &str) -> (same: bool)
    ensures
        same == (a@ == b@),
{
    a.to_owned() == b.to_owned()
}

/// Whether `text` begins with `prefix`.
pub fn starts_with(text: &str, prefix: &str) -> (yes: bool)
    ensures
        yes == prefix@.is_prefix_of(text@),
{
    let n: usize = prefix.unicode_len();
    if text.unicode_len() < n {
        return false;
    }
    same_text(text.substring_char(0, n), prefix)
}

/// Whether two optional texts are both absent or hold the same characters.
pub fn same_optional(a: &Option<String>, b: &Option<String>) -> (same: bool)
    ensures
        same == (optional(*a) == optional(*b)),
{
    match (a, b) {
        (Some(x), Some(y)) => same_text(x.as_str(), y.as_str()),
        (None, None) => true,
        _ => false,
    }
}

/// The characters of an optional text.
pub open spec fn optional(text: Option<String>) -> Option<Seq<char>> {
    match text {
        Some(t) => Some(t@),
        None => None,
    }
}

/// The characters of an optional borrowed text.
pub open spec fn optional_str(text: Option<&str>) -> Option<Seq<char>> {
    match text {
        Some(t) => Some(t@),
        None => None,
    }
}

/// The characters of each text of a list.
pub open spec fn texts(list: Seq<String>) -> Seq<Seq<char>> {
    list.map_values(|t: String| t@)
}

/// The digit for a number below ten.
pub open spec fn digit(d: int) -> char {
    (48 + d) as char
}

/// A number in decimal, without leading zeros.
pub open spec fn decimal(n: nat) -> Seq<char>
    decreases n,
{
    if n < 10 {
        seq![digit(n as int)]
    } else {
        decimal(n / 10).push(digit((n % 10) as int))
    }
}

fn digit_text(d: u64) -> (text: &'static str)
    requires
        d < 10,
    ensures
        text@ == seq![digit(d as int)],
{
    proof {
        reveal_strlit("0");
        reveal_strlit("1");
        reveal_strlit("2");
        reveal_strlit("3");
        reveal_strlit("4");
        reveal_strlit("5");
        reveal_strlit("6");
        reveal_strlit("7");
        reveal_strlit("8");
        reveal_strlit("9");
    }
    match d {
        0 => "0",
        1 => "1",
        2 => "2",
        3 => "3",
        4 => "4",
        5 => "5",
        6 => "6",
        7 => "7",
        8 => "8",
        _ => "9",
    }
}

/// Writes `n` in decimal.
pub fn decimal_text(n: u64) -> (text: String)
    ensures
        text@ == decimal(n as nat),
    decreases n,
{
    if n < 10 {
        digit_text(n).to_owned()
    } else {
        let mut text = decimal_text(n / 10);
        text.append(digit_text(n % 10));
        proof {
            assert(text@ =~= decimal((n / 10) as nat).push(digit((n % 10) as int)));
        }
        text
    }
}

/// Writes a count in decimal.
pub fn count_text(n: usize) -> (text: String)
    ensures
        text@ == decimal(n as nat),
{
    decimal_text(n as u64)
}

/// Whether a character is white space, by Unicode's `White_Space` property.
pub open spec fn is_white_space(c: char) -> bool {
    let n = c as int;
    ||| 9 <= n <= 13
    ||| n == 32
    ||| n == 0x85
    ||| n == 0xA0
    ||| n == 0x1680
    ||| 0x2000 <= n <= 0x200A
    ||| n == 0x2028
    ||| n == 0x2029
    ||| n == 0x202F
    ||| n == 0x205F
    ||| n == 0x3000
}

fn white_space(c: char) -> (yes: bool)
    ensures
        yes == is_white_space(c),
{
    let n: u32 = c as u32;
    (9 <= n && n <= 13) || n == 32 || n == 0x85 || n == 0xA0 || n == 0x1680 || (0x2000 <= n && n
        <= 0x200A) || n == 0x2028 || n == 0x2029 || n == 0x202F || n == 0x205F || n == 0x3000
}

/// A text without the white space at its front.
pub open spec fn trim_front(s: Seq<char>) -> Seq<char>
    decreases s.len(),
{
    if s.len() > 0 && is_white_space(s.first()) {
        trim_front(s.drop_first())
    } else {
        s
    }
}

/// A text without the white space at its back.
pub open spec fn trim_back(s: Seq<char>) -> Seq<char>
    decreases s.len(),
{
    if s.len() > 0 && is_white_space(s.last()) {
        trim_back(s.drop_last())
    } else {
        s
    }
}

/// A text without white space at either end.
pub open spec fn trimmed(s: Seq<char>) -> Seq<char> {
    trim_back(trim_front(s))
}

/// Removes white space at both ends.
pub fn trim(text: &str) -> (inner: &str)
    ensures
        inner@ == trimmed(text@),
{
    let n: usize = text.unicode_len();
    let mut from: usize = 0;
    proof {
        assert(text@.subrange(0, n as int) =~= text@);
    }
    while from < n && white_space(text.get_char(from))
        invariant
            n == text@.len(),
            from <= n,
            trim_front(text@) == trim_front(text@.subrange(from as int, n as int)),
        decreases n - from,
    {
        proof {
            assert(text@.subrange(from as int, n as int).drop_first() =~= text@.subrange(
                from + 1,
                n as int,
            ));
        }
        from = from + 1;
    }
    proof {
        assert(trim_front(text@) == text@.subrange(from as int, n as int));
    }
    let ghost front = text@.subrange(from as int, n as int);
    let mut to: usize = n;
    while from < to && white_space(text.get_char(to - 1))
        invariant
            n == text@.len(),
            from <= to <= n,
            front == text@.subrange(from as int, n as int),
            trim_back(front) == trim_back(text@.subrange(from as int, to as int)),
        decreases to - from,
    {
        proof {
            assert(text@.subrange(from as int, to as int).drop_last() =~= text@.subrange(
                from as int,
                to - 1,
            ));
        }
        to = to - 1;
    }
    text.substring_char(from, to)
}

/// `n` blanks.
pub open spec fn blanks(n: nat) -> Seq<char> {
    Seq::new(n, |i: int| ' ')
}

/// A text filled up with blanks to a width; a longer text stays as it is.
pub open spec fn padded(s: Seq<char>, width: nat) -> Seq<char> {
    if s.len() < width {
        s + blanks((width - s.len()) as nat)
    } else {
        s
    }
}

/// Fills `text` up with blanks to `width` characters.
pub fn pad_right(text: &str, width: usize) -> (out: String)
    ensures
        out@ == padded(text@, width as nat),
{
    let n: usize = text.unicode_len();
    let mut out = text.to_owned();
    if n < width {
        let mut i: usize = n;
        proof {
            assert(out@ =~= text@ + blanks(0));
        }
        while i < width
            invariant
                n == text@.len(),
                n <= i <= width,
                out@ == text@ + blanks((i - n) as nat),
            decreases width - i,
        {
            out.append(" ");
            proof {
                reveal_strlit(" ");
                assert(out@ =~= text@ + blanks((i + 1 - n) as nat));
            }
            i = i + 1;
        }
    }
    out
}

/// The texts of a list, one after the other with `separator` between them.
pub open spec fn joined(parts: Seq<Seq<char>>, separator: Seq<char>) -> Seq<char>
    decreases parts.len(),
{
    if parts.len() == 0 {
        Seq::empty()
    } else if parts.len() == 1 {
        parts[0]
    } else {
        joined(parts.drop_last(), separator) + separator + parts.last()
    }
}

/// Joins the texts of a list.
pub fn join(parts: &Vec<String>, separator: &str) -> (out: String)
    ensures
        out@ == joined(texts(parts@), separator@),
{
    if parts.len() == 0 {
        return String::new();
    }
    let mut out = parts[0].clone();
    let mut i: usize = 1;
    proof {
        assert(texts(parts@).take(1)[0] == parts@[0]@);
    }
    while i < parts.len()
        invariant
            1 <= i <= parts@.len(),
            out@ == joined(texts(parts@).take(i as int), separator@),
        decreases parts@.len() - i,
    {
        proof {
            let next = texts(parts@).take(i + 1);
            assert(next.drop_last() =~= texts(parts@).take(i as int));
            assert(next.last() == parts@[i as int]@);
        }
        out.append(separator);
        out.append(parts[i].as_str());
        i = i + 1;
    }
    proof {
        assert(texts(parts@).take(i as int) =~= texts(parts@));
    }
    out
}

/// A copy of a list of texts.
pub fn copy_texts(list: &Vec<String>) -> (copy: Vec<String>)
    ensures
        copy@ == list@,
{
    let mut copy: Vec<String> = Vec::new();
    let mut i: usize = 0;
    while i < list.len()
        invariant
            i <= list@.len(),
            copy@ == list@.take(i as int),
        decreases list@.len() - i,
    {
        copy.push(list[i].clone());
        proof {
            assert(list@.take(i + 1) =~= list@.take(i as int).push(list@[i as int]));
        }
        i = i + 1;
    }
    proof {
        assert(list@.take(i as int) =~= list@);
    }
    copy
}

/// Whether a character is a decimal digit.
pub open spec fn is_digit(c: char) -> bool {
    '0' <= c <= '9'
}

/// The number that a row of decimal digits stands for.
pub open spec fn number_read(digits: Seq<char>) -> int
    decreases digits.len(),
{
    if digits.len() == 0 {
        0
    } else {
        number_read(digits.drop_last()) * 10 + (digits.last() as int - '0' as int)
    }
}

proof fn a_number_is_read_back(n: nat)
    ensures
        number_read(decimal(n)) == n,
        decimal(n).len() > 0,
        forall|i: int| 0 <= i < decimal(n).len() ==> is_digit(#[trigger] decimal(n)[i]),
        n > 0 ==> decimal(n)[0] != '0',
    decreases n,
{
    reveal_with_fuel(number_read, 2);
    if n < 10 {
        let d = decimal(n);
        assert(d.drop_last() =~= Seq::<char>::empty());
        assert(d.last() == digit(n as int));
    } else {
        a_number_is_read_back(n / 10);
        let d = decimal(n);
        assert(d.drop_last() =~= decimal(n / 10));
        assert(d.last() == digit((n % 10) as int));
        assert forall|i: int| 0 <= i < d.len() implies is_digit(#[trigger] d[i]) by {
            if i < d.len() - 1 {
                assert(d[i] == decimal(n / 10)[i]);
            }
        }
        assert(d[0] == decimal(n / 10)[0]);
    }
}

/// A number is written in decimal digits that stand for that very number, with no
/// leading zero.
pub proof fn numbers_are_read_back(n: u64, count: usize, text: String, counted: String)
    requires
        call_ensures(decimal_text, (n,), text),
        call_ensures(count_text, (count,), counted),
    ensures
        number_read(text@) == n,
        number_read(counted@) == count,
        text@.len() > 0,
        forall|i: int| 0 <= i < text@.len() ==> is_digit(#[trigger] text@[i]),
        n > 0 ==> text@[0] != '0',
        n == 0 ==> text@ == seq!['0'],
{
    a_number_is_read_back(n as nat);
    a_number_is_read_back(count as nat);
    if n == 0 {
        assert(text@ =~= seq!['0']);
    }
}

proof fn only_white_space_is_trimmed(s: Seq<char>)
    ensures
        exists|a: Seq<char>| #[trigger]
            (a + trim_front(s)) == s && forall|i: int|
                0 <= i < a.len() ==> is_white_space(#[trigger] a[i]),
        trim_front(s).len() > 0 ==> !is_white_space(trim_front(s)[0]),
        exists|b: Seq<char>| #[trigger]
            (trim_back(s) + b) == s && forall|i: int|
                0 <= i < b.len() ==> is_white_space(#[trigger] b[i]),
        trim_back(s).len() > 0 ==> !is_white_space(trim_back(s).last()),
    decreases s.len(),
{
    if s.len() > 0 && is_white_space(s.first()) {
        let rest = s.drop_first();
        only_white_space_is_trimmed(rest);
        let a = choose|a: Seq<char>| #[trigger]
            (a + trim_front(rest)) == rest && forall|i: int|
                0 <= i < a.len() ==> is_white_space(#[trigger] a[i]);
        let longer = seq![s.first()] + a;
        assert(a + trim_front(rest) == rest);
        assert(longer + trim_front(s) =~= seq![s.first()] + (a + trim_front(rest)));
        assert(seq![s.first()] + rest =~= s);
        assert forall|i: int| 0 <= i < longer.len() implies is_white_space(#[trigger] longer[i]) by {
            if i > 0 {
                assert(longer[i] == a[i - 1]);
            }
        }
    } else {
        assert(Seq::<char>::empty() + trim_front(s) =~= s);
    }
    if s.len() > 0 && is_white_space(s.last()) {
        let rest = s.drop_last();
        only_white_space_is_trimmed(rest);
        let b = choose|b: Seq<char>| #[trigger]
            (trim_back(rest) + b) == rest && forall|i: int|
                0 <= i < b.len() ==> is_white_space(#[trigger] b[i]);
        let longer = b.push(s.last());
        assert(trim_back(rest) + b == rest);
        assert(trim_back(s) + longer =~= (trim_back(rest) + b).push(s.last()));
        assert(rest.push(s.last()) =~= s);
        assert forall|i: int| 0 <= i < longer.len() implies is_white_space(#[trigger] longer[i]) by {
            if i < b.len() {
                assert(longer[i] == b[i]);
            }
        }
    } else {
        assert(trim_back(s) + Seq::<char>::empty() =~= s);
    }
}

/// What trimming leaves is the text without some white space before and behind
/// it, and neither begins nor ends with white space.
pub proof fn trimming_removes_white_space_alone(text: &str, inner: &str)
    requires
        call_ensures(trim, (text,), inner),
    ensures
        exists|a: Seq<char>, b: Seq<char>| #[trigger]
            (a + inner@ + b) == text@ && (forall|i: int|
                0 <= i < a.len() ==> is_white_space(#[trigger] a[i])) && (forall|i: int|
                0 <= i < b.len() ==> is_white_space(#[trigger] b[i])),
        inner@.len() > 0 ==> !is_white_space(inner@[0]) && !is_white_space(inner@.last()),
{
    let s = text@;
    let front = trim_front(s);
    only_white_space_is_trimmed(s);
    only_white_space_is_trimmed(front);
    let a = choose|a: Seq<char>| #[trigger]
        (a + front) == s && forall|i: int| 0 <= i < a.len() ==> is_white_space(#[trigger] a[i]);
    let b = choose|b: Seq<char>| #[trigger]
        (trim_back(front) + b) == front && forall|i: int|
            0 <= i < b.len() ==> is_white_space(#[trigger] b[i]);
    assert(a + inner@ + b =~= s);
    if inner@.len() > 0 {
        assert((inner@ + b)[0] == inner@[0]);
    }
}

/// A text is filled up with blanks behind it to the width, and a text that is
/// wider stays as it is.
pub proof fn filling_up_adds_blanks_alone(text: &str, width: usize, out: String)
    requires
        call_ensures(pad_right, (text, width), out),
    ensures
        out@.len() == (if text@.len() < width {
            width as nat
        } else {
            text@.len()
        }),
        forall|i: int| 0 <= i < text@.len() ==> #[trigger] out@[i] == text@[i],
        forall|i: int| text@.len() <= i < out@.len() ==> #[trigger] out@[i] == ' ',
{
}

/// A list of texts is joined as its first part, the separator and the rest; one
/// text alone is itself, and no text is nothing.
pub proof fn texts_are_joined_in_order(
    first: Seq<Seq<char>>,
    second: Seq<Seq<char>>,
    separator: Seq<char>,
    one: Seq<char>,
)
    ensures
        first.len() > 0 && second.len() > 0 ==> joined(first + second, separator) == joined(
            first,
            separator,
        ) + separator + joined(second, separator),
        joined(seq![one], separator) == one,
        joined(Seq::empty(), separator).len() == 0,
    decreases second.len(),
{
    if first.len() > 0 && second.len() > 0 {
        let all = first + second;
        assert(all.drop_last() =~= first + second.drop_last());
        assert(all.last() == second.last());
        if second.len() == 1 {
            assert(first + second.drop_last() =~= first);
            assert(joined(second, separator) == second[0]);
        } else {
            texts_are_joined_in_order(first, second.drop_last(), separator, one);
            assert(joined(all, separator) =~= joined(first, separator) + separator + joined(
                second,
                separator,
            ));
        }
    }
}

/// Two optional texts are the same exactly when both are missing or both are
/// there and read the same.
pub proof fn optional_texts_are_compared_by_what_they_say(
    a: &Option<String>,
    b: &Option<String>,
    same: bool,
)
    requires
        call_ensures(same_optional, (a, b), same),
    ensures
        same ==> (a is Some <==> b is Some),
        *a matches Some(x) ==> (*b matches Some(y) ==> (same <==> x@ == y@)),
        a is None && b is None ==> same,
{
}

/// A text that is there reads as its characters, and one that is missing as
/// nothing.
pub proof fn an_optional_text_reads_as_it_is(text: Option<String>, list: Seq<String>, i: int)
    ensures
        text matches Some(t) ==> optional(text) == Some(t@),
        text is None ==> optional(text) is None,
        texts(list).len() == list.len(),
        0 <= i < list.len() ==> texts(list)[i] == list[i]@,
{
}

/// Texts are the same exactly when each of their characters is, and one begins
/// with another exactly when it has that one's characters in front.
pub proof fn texts_are_compared_by_character(a: &str, b: &str, same: bool, begins: bool)
    requires
        call_ensures(same_text, (a, b), same),
        call_ensures(starts_with, (a, b), begins),
    ensures
        same <==> a@.len() == b@.len() && forall|i: int|
            0 <= i < a@.len() ==> #[trigger] a@[i] == b@[i],
        begins <==> a@.len() >= b@.len() && forall|i: int|
            0 <= i < b@.len() ==> #[trigger] a@[i] == b@[i],
{
    if a@.len() == b@.len() && forall|i: int| 0 <= i < a@.len() ==> #[trigger] a@[i] == b@[i] {
        assert(a@ =~= b@);
    }
    if a@.len() >= b@.len() {
        let front = a@.subrange(0, b@.len() as int);
        if forall|i: int| 0 <= i < b@.len() ==> #[trigger] a@[i] == b@[i] {
            assert(front =~= b@);
        }
        if begins {
            assert(front == b@);
            assert forall|i: int| 0 <= i < b@.len() implies #[trigger] a@[i] == b@[i] by {
                assert(front[i] == a@[i]);
            }
        }
    }
}

/// A copy of a list of texts has the same texts in the same order.
pub proof fn a_copy_is_the_same_list(list: &Vec<String>, copy: Vec<String>, i: int)
    requires
        call_ensures(copy_texts, (list,), copy),
    ensures
        copy@.len() == list@.len(),
        0 <= i < list@.len() ==> copy@[i]@ == list@[i]@,
{
}

} // verus!
