//! Text helpers: views of string lists, decimal rendering and parsing,
//! line splitting and substring search.

use vstd::prelude::*;
use vstd::string::*;

verus! {

/// The character contents of a list of strings.
pub open spec fn texts(v: Seq<String>) -> Seq<Seq<char>> {
    v.map_values(|s: String| s@)
}

/// The decimal digit for a value below ten.
pub open spec fn digit_char(d: int) -> char {
    if d == 0 {
        '0'
    } else if d == 1 {
        '1'
    } else if d == 2 {
        '2'
    } else if d == 3 {
        '3'
    } else if d == 4 {
        '4'
    } else if d == 5 {
        '5'
    } else if d == 6 {
        '6'
    } else if d == 7 {
        '7'
    } else if d == 8 {
        '8'
    } else {
        '9'
    }
}

/// Decimal notation of a natural number, without leading zeros.
pub open spec fn decimal(n: nat) -> Seq<char>
    decreases n,
{
    if n < 10 {
        seq![digit_char(n as int)]
    } else {
        decimal(n / 10).push(digit_char((n % 10) as int))
    }
}

/// Decimal notation of an integer, with a minus sign when negative.
pub open spec fn signed_decimal(n: int) -> Seq<char> {
    if n < 0 {
        seq!['-'] + decimal((-n) as nat)
    } else {
        decimal(n as nat)
    }
}

fn digit_text(d: u64) -> (r: &'static str)
    requires
        d < 10,
    ensures
        r@ == seq![digit_char(d as int)],
{
    proof {
        reveal_strlit("0");
        reveal_strlit("1");
        reveal_strlit("2");
        reveal_strlit("3");
        reveal_strlit("4");
        reveal_strlit("5");
        reveal_strlit("6");
        reveal_strlit("7");
        reveal_strlit("8");
        reveal_strlit("9");
    }
    let r = if d == 0 {
        "0"
    } else if d == 1 {
        "1"
    } else if d == 2 {
        "2"
    } else if d == 3 {
        "3"
    } else if d == 4 {
        "4"
    } else if d == 5 {
        "5"
    } else if d == 6 {
        "6"
    } else if d == 7 {
        "7"
    } else if d == 8 {
        "8"
    } else {
        "9"
    };
    assert(r@ =~= seq![digit_char(d as int)]);
    r
}

/// Renders an unsigned number in decimal.
pub fn render_unsigned(n: u64) -> (r: String)
    ensures
        r@ == decimal(n as nat),
    decreases n,
{
    if n < 10 {
        String::from_str(digit_text(n))
    } else {
        let head = render_unsigned(n / 10);
        let r = head.concat(digit_text(n % 10));
        assert(r@ =~= decimal(n as nat));
        r
    }
}

/// Renders a line number or a count in decimal.
pub fn render_count(n: usize) -> (r: String)
    ensures
        r@ == decimal(n as nat),
{
    render_unsigned(n as u64)
}

/// Renders a signed number, such as a process exit code, in decimal.
pub fn render_signed(n: i32) -> (r: String)
    ensures
        r@ == signed_decimal(n as int),
{
    let wide: i64 = n as i64;
    if wide < 0 {
        let digits = render_unsigned((-wide) as u64);
        let r = String::from_str("-").concat(digits.as_str());
        proof {
            reveal_strlit("-");
        }
        assert(r@ =~= signed_decimal(n as int));
        r
    } else {
        render_unsigned(wide as u64)
    }
}

/// Finds the first place at which `item` stands in `list`.
pub fn position(list: &Vec<String>, item: &String) -> (r: Option<usize>)
    ensures
        match r {
            Some(i) => i < list@.len() && texts(list@)[i as int] == item@ && texts(
                list@,
            ).contains(item@) && forall|j: int| 0 <= j < i ==> (#[trigger] list@[j])@ != item@,
            None => !texts(list@).contains(item@),
        },
{
    let mut i: usize = 0;
    while i < list.len()
        invariant
            i <= list.len(),
            forall|j: int| 0 <= j < i ==> (#[trigger] list@[j])@ != item@,
        decreases list.len() - i,
    {
        if list[i] == *item {
            assert(texts(list@)[i as int] == item@);
            return Some(i);
        }
        i += 1;
    }
    assert(!texts(list@).contains(item@)) by {
        if texts(list@).contains(item@) {
            let j = choose|j: int| 0 <= j < texts(list@).len() && texts(list@)[j] == item@;
            assert(list@[j]@ == item@);
        }
    }
    None
}

/// The place of the first line feed in `t`, or its length where it has none.
pub open spec fn first_newline(t: Seq<char>) -> int
    decreases t.len(),
{
    if t.len() == 0 || t[0] == '\n' {
        0
    } else {
        1 + first_newline(t.skip(1))
    }
}

/// A line without the carriage return that ended it, if one did.
pub open spec fn without_return(line: Seq<char>) -> Seq<char> {
    if line.len() > 0 && line.last() == '\r' {
        line.drop_last()
    } else {
        line
    }
}

/// The lines of a text. A line ends at a line feed, or at a carriage return
/// directly followed by one; neither belongs to the line. What follows the
/// last line feed is a line of its own unless it is empty, and keeps a
/// carriage return at its end.
pub open spec fn lines_of(t: Seq<char>) -> Seq<Seq<char>>
    decreases t.len(),
{
    let k = first_newline(t);
    if t.len() == 0 {
        Seq::empty()
    } else if k < 0 || k >= t.len() {
        seq![t]
    } else {
        seq![without_return(t.take(k))] + lines_of(t.skip(k + 1))
    }
}

/// Calls `str::lines` and copies each line out. Trusted: the lines are those
/// that `lines_of` describes, in order.
#[verifier::external_body]
pub(crate) fn split_lines(text: &str) -> (r: Vec<String>)
    ensures
        texts(r@) == lines_of(text@),
{
    text.lines().map(|line| line.to_string()).collect()
}

/// Adds one string at the end of a list.
pub fn push_text(list: &mut Vec<String>, item: String)
    ensures
        texts(final(list)@) == texts(old(list)@).push(item@),
{
    list.push(item);
    assert(texts(list@) =~= texts(old(list)@).push(item@));
}

/// Adds copies of the strings of `more` from place `from` up to `to`, in
/// order, at the end of a list.
pub fn append_range(list: &mut Vec<String>, more: &Vec<String>, from: usize, to: usize)
    requires
        from <= to <= more@.len(),
    ensures
        texts(final(list)@) == texts(old(list)@) + texts(more@).subrange(from as int, to as int),
{
    let mut i: usize = from;
    assert(texts(list@) =~= texts(old(list)@) + texts(more@).subrange(from as int, i as int));
    while i < to
        invariant
            from <= i <= to <= more@.len(),
            texts(list@) == texts(old(list)@) + texts(more@).subrange(from as int, i as int),
        decreases to - i,
    {
        let item = more[i].clone();
        let ghost before = list@;
        list.push(item);
        assert(texts(list@) =~= texts(before).push(item@));
        assert(texts(more@).subrange(from as int, i + 1) =~= texts(more@).subrange(
            from as int,
            i as int,
        ).push(more@[i as int]@));
        assert(texts(list@) =~= texts(old(list)@) + texts(more@).subrange(from as int, i + 1));
        i += 1;
    }
}

/// Adds copies of the strings of `more`, in order, at the end of a list.
pub fn append_texts(list: &mut Vec<String>, more: &Vec<String>)
    ensures
        texts(final(list)@) == texts(old(list)@) + texts(more@),
{
    append_range(list, more, 0, more.len());
    assert(texts(more@).subrange(0, more@.len() as int) =~= texts(more@));
}

/// The value of a decimal digit.
pub open spec fn digit_value(c: char) -> Option<nat> {
    if c == '0' {
        Some(0)
    } else if c == '1' {
        Some(1)
    } else if c == '2' {
        Some(2)
    } else if c == '3' {
        Some(3)
    } else if c == '4' {
        Some(4)
    } else if c == '5' {
        Some(5)
    } else if c == '6' {
        Some(6)
    } else if c == '7' {
        Some(7)
    } else if c == '8' {
        Some(8)
    } else if c == '9' {
        Some(9)
    } else {
        None
    }
}

/// The number that a run of decimal digits stands for.
pub open spec fn digits_value(s: Seq<char>) -> Option<nat>
    decreases s.len(),
{
    if s.len() == 0 {
        Some(0)
    } else {
        match (digits_value(s.drop_last()), digit_value(s.last())) {
            (Some(v), Some(d)) => Some(v * 10 + d),
            _ => None,
        }
    }
}

/// The count that a text stands for: decimal digits, at least one, after an
/// optional plus sign, with a value that a `usize` holds.
pub open spec fn parsed_count(s: Seq<char>) -> Option<usize> {
    let body = if s.len() > 0 && s[0] == '+' {
        s.skip(1)
    } else {
        s
    };
    if body.len() == 0 {
        None
    } else {
        match digits_value(body) {
            Some(v) => if v <= usize::MAX {
                Some(v as usize)
            } else {
                None
            },
            None => None,
        }
    }
}

proof fn lemma_digits_prefix(s: Seq<char>, k: int)
    requires
        0 <= k <= s.len(),
    ensures
        digits_value(s.take(k)) is None ==> digits_value(s) is None,
        digits_value(s) is Some ==> digits_value(s.take(k)).unwrap() <= digits_value(s).unwrap(),
    decreases s.len() - k,
{
    if k < s.len() {
        assert(s.drop_last().take(k) =~= s.take(k));
        lemma_digits_prefix(s.drop_last(), k);
    } else {
        assert(s.take(k) =~= s);
    }
}

fn digit_of(c: char) -> (r: Option<usize>)
    ensures
        match r {
            Some(d) => digit_value(c) == Some(d as nat) && d < 10,
            None => digit_value(c) is None,
        },
{
    if c == '0' {
        Some(0)
    } else if c == '1' {
        Some(1)
    } else if c == '2' {
        Some(2)
    } else if c == '3' {
        Some(3)
    } else if c == '4' {
        Some(4)
    } else if c == '5' {
        Some(5)
    } else if c == '6' {
        Some(6)
    } else if c == '7' {
        Some(7)
    } else if c == '8' {
        Some(8)
    } else if c == '9' {
        Some(9)
    } else {
        None
    }
}

/// Reads a count in decimal notation, as `str::parse::<usize>` does.
pub fn parse_count(s: &str) -> (r: Option<usize>)
    ensures
        r == parsed_count(s@),
{
    let n = s.unicode_len();
    let mut start: usize = 0;
    if n > 0 && s.get_char(0) == '+' {
        start = 1;
    }
    if start == n {
        return None;
    }
    let ghost body = s@.skip(start as int);
    assert(s@.skip(0) =~= s@);
    assert(body == if s@.len() > 0 && s@[0] == '+' {
        s@.skip(1)
    } else {
        s@
    });
    let mut acc: usize = 0;
    let mut i: usize = start;
    assert(body.take(0) =~= Seq::<char>::empty());
    while i < n
        invariant
            start <= i <= n,
            n == s@.len(),
            body == s@.skip(start as int),
            body == if s@.len() > 0 && s@[0] == '+' {
                s@.skip(1)
            } else {
                s@
            },
            digits_value(body.take(i - start)) == Some(acc as nat),
        decreases n - i,
    {
        let c = s.get_char(i);
        let ghost next = body.take(i + 1 - start);
        assert(next.drop_last() =~= body.take(i - start));
        assert(next.last() == c);
        proof {
            lemma_digits_prefix(body, i + 1 - start);
        }
        match digit_of(c) {
            Some(d) => {
                if acc > (usize::MAX - d) / 10 {
                    assert(digits_value(next) == Some((acc * 10 + d) as nat));
                    return None;
                }
                acc = acc * 10 + d;
            },
            None => {
                return None;
            },
        }
        i += 1;
    }
    assert(body.take(n - start) =~= body);
    Some(acc)
}

/// Whether `needle` stands somewhere in `text`.
pub open spec fn has_substring(text: Seq<char>, needle: Seq<char>) -> bool {
    exists|i: int|
        0 <= i <= text.len() - needle.len() && #[trigger] text.subrange(i, i + needle.len())
            == needle
}

/// Says whether `needle` stands somewhere in `text`.
pub fn contains_text(text: &str, needle: &str) -> (r: bool)
    ensures
        r == has_substring(text@, needle@),
{
    let n = text.unicode_len();
    let m = needle.unicode_len();
    if m > n {
        return false;
    }
    let mut i: usize = 0;
    while i <= n - m
        invariant
            i <= n - m + 1,
            m <= n,
            n == text@.len(),
            m == needle@.len(),
            forall|k: int| 0 <= k < i ==> #[trigger] text@.subrange(k, k + needle@.len()) != needle@,
        decreases n - m + 1 - i,
    {
        let mut j: usize = 0;
        let mut same = true;
        while same && j < m
            invariant
                j <= m,
                i + m <= n,
                n == text@.len(),
                m == needle@.len(),
                same ==> forall|k: int| 0 <= k < j ==> text@[i + k] == needle@[k],
                !same ==> j < m && text@[i + j] != needle@[j as int],
            decreases m - j + (if same { 1int } else { 0int }),
        {
            if text.get_char(i + j) == needle.get_char(j) {
                j += 1;
            } else {
                same = false;
            }
        }
        if same {
            assert(text@.subrange(i as int, i + needle@.len()) =~= needle@);
            return true;
        }
        assert(text@.subrange(i as int, i + needle@.len())[j as int] != needle@[j as int]);
        i += 1;
    }
    false
}

/// A path with each backslash turned into a slash.
pub open spec fn with_slashes(path: Seq<char>) -> Seq<char> {
    path.map_values(
        |c: char|
            if c == '\\' {
                '/'
            } else {
                c
            },
    )
}

/// Turns each backslash of a path into a slash.
pub fn normalize_path(path: &str) -> (r: String)
    ensures
        r@ == with_slashes(path@),
{
    let n = path.unicode_len();
    let mut out = String::new();
    let mut i: usize = 0;
    assert(out@ =~= with_slashes(path@).take(0));
    while i < n
        invariant
            i <= n,
            n == path@.len(),
            out@ == with_slashes(path@).take(i as int),
        decreases n - i,
    {
        let c = path.get_char(i);
        if c == '\\' {
            proof {
                reveal_strlit("/");
            }
            out.append("/");
        } else {
            out.append(path.substring_char(i, i + 1));
        }
        assert(out@ =~= with_slashes(path@).take(i + 1));
        i += 1;
    }
    assert(with_slashes(path@).take(n as int) =~= with_slashes(path@));
    out
}

} // verus!
