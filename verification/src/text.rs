use vstd::prelude::*;

verus! {

/// The character that writes the decimal digit `d` (for `d < 10`).
pub open spec fn digit_char(d: nat) -> char {
    if d == 0 { '0' }
    else if d == 1 { '1' }
    else if d == 2 { '2' }
    else if d == 3 { '3' }
    else if d == 4 { '4' }
    else if d == 5 { '5' }
    else if d == 6 { '6' }
    else if d == 7 { '7' }
    else if d == 8 { '8' }
    else { '9' }
}

/// The decimal notation of `n`: its digits, most significant first, without leading zeros.
pub open spec fn decimal(n: nat) -> Seq<char>
    decreases n,
{
    if n < 10 {
        seq![digit_char(n)]
    } else {
        decimal(n / 10).push(digit_char(n % 10))
    }
}

/// The decimal notation of a signed integer: a minus sign before the digits of a negative one.
pub open spec fn signed_decimal(i: int) -> Seq<char> {
    if i < 0 {
        seq!['-'] + decimal((-i) as nat)
    } else {
        decimal(i as nat)
    }
}

fn digit_str(d: u64) -> (s: &'static str)
    requires
        d < 10,
    ensures
        s@ == seq![digit_char(d as nat)],
{
    let s: &'static str = if d == 0 {
        "0"
    } else if d == 1 {
        "1"
    } else if d == 2 {
        "2"
    } else if d == 3 {
        "3"
    } else if d == 4 {
        "4"
    } else if d == 5 {
        "5"
    } else if d == 6 {
        "6"
    } else if d == 7 {
        "7"
    } else if d == 8 {
        "8"
    } else {
        "9"
    };
    proof {
        reveal_strlit("0");
        reveal_strlit("1");
        reveal_strlit("2");
        reveal_strlit("3");
        reveal_strlit("4");
        reveal_strlit("5");
        reveal_strlit("6");
        reveal_strlit("7");
        reveal_strlit("8");
        reveal_strlit("9");
        assert(s@ =~= seq![digit_char(d as nat)]);
    }
    s
}

/// Writes `n` in decimal, as `n.to_string()` does.
pub fn decimal_string(n: u64) -> (s: String)
    ensures
        s@ == decimal(n as nat),
    decreases n,
{
    if n < 10 {
        String::from_str(digit_str(n))
    } else {
        let mut s = decimal_string(n / 10);
        s.append(digit_str(n % 10));
        s
    }
}

/// Writes `i` in decimal, with a leading minus sign when it is negative, as `i.to_string()` does.
pub fn signed_decimal_string(i: i64) -> (s: String)
    ensures
        s@ == signed_decimal(i as int),
{
    if i < 0 {
        let magnitude: u64 = (-(i as i128)) as u64;
        let mut s = String::from_str("-");
        proof {
            reveal_strlit("-");
        }
        let digits = decimal_string(magnitude);
        s.append(digits.as_str());
        assert(s@ =~= signed_decimal(i as int));
        s
    } else {
        decimal_string(i as u64)
    }
}

} // verus!

verus! {

/// The pieces of `s` between its newline characters, as `str::split('\n')` gives them:
/// one more piece than there are newlines.
pub open spec fn split_at_newlines(s: Seq<char>) -> Seq<Seq<char>>
    decreases s.len(),
{
    if s.len() == 0 {
        seq![Seq::empty()]
    } else {
        let before = split_at_newlines(s.drop_last());
        if s.last() == '\n' {
            before.push(Seq::empty())
        } else {
            before.update(before.len() - 1, before.last().push(s.last()))
        }
    }
}

/// A line that ended in a carriage return and a newline loses the carriage return.
pub open spec fn strip_carriage_return(line: Seq<char>) -> Seq<char> {
    if line.len() > 0 && line.last() == '\r' {
        line.drop_last()
    } else {
        line
    }
}

/// The lines of a text as `str::lines` yields them: split at each `\n` or `\r\n`, line
/// endings removed, a final line ending optional, and no line at all for the empty text.
/// A carriage return not followed by a newline stays in its line.
pub open spec fn text_lines(s: Seq<char>) -> Seq<Seq<char>> {
    let pieces = split_at_newlines(s);
    let ended = pieces.drop_last().map_values(|line: Seq<char>| strip_carriage_return(line));
    if s.len() == 0 {
        Seq::empty()
    } else if s.last() == '\n' {
        ended
    } else {
        ended.push(pieces.last())
    }
}

/// The pieces written one after another with `sep` between each two of them,
/// as `slice::join` does.
pub open spec fn join_with(pieces: Seq<Seq<char>>, sep: Seq<char>) -> Seq<char>
    decreases pieces.len(),
{
    if pieces.len() == 0 {
        Seq::empty()
    } else if pieces.len() == 1 {
        pieces[0]
    } else {
        join_with(pieces.drop_last(), sep) + sep + pieces.last()
    }
}

/// The views of a vector of strings.
pub open spec fn string_views(v: Seq<String>) -> Seq<Seq<char>> {
    v.map_values(|s: String| s@)
}

/// Calls `str::lines` and collects the lines. Its contract restates the documentation of
/// `str::lines`: lines end at `\n` or `\r\n`, which are removed, and a final line ending is
/// optional.
#[verifier::external_body]
pub(crate) fn split_lines(text: &str) -> (lines: Vec<String>)
    ensures
        string_views(lines@) == text_lines(text@),
{
    text.lines().map(String::from).collect()
}

/// Joins `lines[start..end]` with `sep` between each two of them.
pub fn join_range(lines: &Vec<String>, start: usize, end: usize, sep: &str) -> (joined: String)
    requires
        start <= end <= lines@.len(),
    ensures
        joined@ == join_with(string_views(lines@).subrange(start as int, end as int), sep@),
{
    let ghost views = string_views(lines@);
    let mut joined = String::new();
    let mut i: usize = start;
    assert(views.subrange(start as int, start as int) =~= Seq::<Seq<char>>::empty());
    while i < end
        invariant
            start <= i <= end <= lines@.len(),
            views == string_views(lines@),
            joined@ == join_with(views.subrange(start as int, i as int), sep@),
        decreases end - i,
    {
        if i > start {
            joined.append(sep);
        }
        joined.append(lines[i].as_str());
        proof {
            let next = views.subrange(start as int, i + 1);
            assert(next.drop_last() =~= views.subrange(start as int, i as int));
            assert(next.last() == lines@[i as int]@);
            if i == start {
                assert(next.len() == 1);
                assert(joined@ =~= next[0]);
            }
        }
        i = i + 1;
    }
    joined
}

/// Whether the characters at `i` and `i + 1` of `s` are both dots.
pub open spec fn dots_at(s: Seq<char>, i: int) -> bool {
    s[i] == '.' && s[i + 1] == '.'
}

/// Whether `s` holds two dots one after the other.
pub open spec fn has_double_dot(s: Seq<char>) -> bool {
    exists|i: int| 0 <= i && i + 1 < s.len() && #[trigger] dots_at(s, i)
}

/// Whether `s` begins with a slash.
pub open spec fn begins_with_slash(s: Seq<char>) -> bool {
    s.len() > 0 && s[0] == '/'
}

/// Whether `s` holds "..", as `s.contains("..")` answers.
pub fn contains_double_dot(s: &str) -> (found: bool)
    ensures
        found == has_double_dot(s@),
{
    let n: usize = s.unicode_len();
    if n < 2 {
        return false;
    }
    let mut i: usize = 0;
    while i + 1 < n
        invariant
            n == s@.len(),
            n >= 2,
            i + 1 <= n,
            forall|j: int| 0 <= j < i ==> !#[trigger] dots_at(s@, j),
        decreases n - i,
    {
        if s.get_char(i) == '.' && s.get_char(i + 1) == '.' {
            assert(dots_at(s@, i as int));
            return true;
        }
        i = i + 1;
    }
    false
}

/// Whether `s` begins with "/", as `s.starts_with("/")` answers.
pub fn starts_with_slash(s: &str) -> (found: bool)
    ensures
        found == begins_with_slash(s@),
{
    s.unicode_len() > 0 && s.get_char(0) == '/'
}

/// Whether two strings are equal, as `==` on `str` answers.
pub fn same_text(a: &str, b: &str) -> (same: bool)
    ensures
        same == (a@ == b@),
{
    let n: usize = a.unicode_len();
    if n != b.unicode_len() {
        return false;
    }
    let mut i: usize = 0;
    while i < n
        invariant
            n == a@.len(),
            n == b@.len(),
            i <= n,
            forall|j: int| 0 <= j < i ==> a@[j] == b@[j],
        decreases n - i,
    {
        if a.get_char(i) != b.get_char(i) {
            return false;
        }
        i = i + 1;
    }
    assert(a@ =~= b@);
    true
}

} // verus!
