//! Text helpers: prefixes, substrings, numbers in decimal and octal, and
//! lines joined into one report.

use vstd::prelude::*;

verus! {

/// The lower-case form that `str::to_lowercase` gives a text.
pub uninterp spec fn lowercase_of(text: Seq<char>) -> Seq<char>;

/// The text in lower case, as `str::to_lowercase` of the standard library
/// computes it by the Unicode rules. Nothing is stated of the result beyond
/// its being that form of the argument.
#[verifier::external_body]
pub(crate) fn lowercase(text: &str) -> (res: String)
    ensures
        res@ == lowercase_of(text@),
{
    text.to_lowercase()
}

/// Appends one character, as `String::push` of the standard library does.
#[verifier::external_body]
pub(crate) fn push_char(text: &mut String, c: char)
    ensures
        final(text)@ == old(text)@.push(c),
{
    text.push(c)
}

/// The characters of a text, for access by position.
pub fn chars_of(text: &str) -> (res: Vec<char>)
    ensures
        res@ == text@,
{
    let n = text.unicode_len();
    let mut res: Vec<char> = Vec::new();
    let mut i: usize = 0;
    while i < n
        invariant
            n == text@.len(),
            i <= n,
            res@ == text@.subrange(0, i as int),
        decreases n - i,
    {
        res.push(text.get_char(i));
        assert(res@ =~= text@.subrange(0, i + 1));
        i += 1;
    }
    assert(res@ =~= text@);
    res
}

/// `part` stands in `whole` from position `at` on.
pub open spec fn occurs_at(part: Seq<char>, whole: Seq<char>, at: int) -> bool {
    0 <= at && at + part.len() <= whole.len() && whole.subrange(at, at + part.len()) == part
}

/// `part` stands somewhere in `whole`.
pub open spec fn occurs_in(part: Seq<char>, whole: Seq<char>) -> bool {
    exists|at: int| occurs_at(part, whole, at)
}

/// Whether `part` stands in `whole` from position `at` on.
pub fn matches_at(part: &Vec<char>, whole: &Vec<char>, at: usize) -> (res: bool)
    ensures
        res == occurs_at(part@, whole@, at as int),
{
    if at > whole.len() || part.len() > whole.len() - at {
        return false;
    }
    let mut k: usize = 0;
    while k < part.len()
        invariant
            at + part.len() <= whole.len(),
            k <= part.len(),
            forall|j: int| 0 <= j < k ==> whole@[at + j] == part@[j],
        decreases part.len() - k,
    {
        if whole[at + k] != part[k] {
            assert(whole@.subrange(at as int, at + part@.len())[k as int] != part@[k as int]);
            return false;
        }
        k += 1;
    }
    assert(whole@.subrange(at as int, at + part@.len()) =~= part@);
    true
}

/// Whether `text` begins with `prefix`.
pub fn starts_with(text: &str, prefix: &str) -> (res: bool)
    ensures
        res == occurs_at(prefix@, text@, 0),
{
    let whole = chars_of(text);
    let part = chars_of(prefix);
    matches_at(&part, &whole, 0)
}

/// Whether `part` stands somewhere in `whole`.
pub fn contains(whole: &Vec<char>, part: &Vec<char>) -> (res: bool)
    ensures
        res == occurs_in(part@, whole@),
{
    if part.len() > whole.len() {
        return false;
    }
    let last: usize = whole.len() - part.len();
    let mut at: usize = 0;
    loop
        invariant
            last == whole.len() - part.len(),
            at <= last,
            forall|a: int| 0 <= a < at ==> !occurs_at(part@, whole@, a),
        decreases last - at,
    {
        if matches_at(part, whole, at) {
            return true;
        }
        if at == last {
            return false;
        }
        at += 1;
    }
}

/// The character of a digit below ten.
pub open spec fn digit_char(d: nat) -> char {
    if d == 0 {
        '0'
    } else if d == 1 {
        '1'
    } else if d == 2 {
        '2'
    } else if d == 3 {
        '3'
    } else if d == 4 {
        '4'
    } else if d == 5 {
        '5'
    } else if d == 6 {
        '6'
    } else if d == 7 {
        '7'
    } else if d == 8 {
        '8'
    } else {
        '9'
    }
}

/// The digits of `n` in a base of at most ten, most significant first and
/// without leading zeros; zero is the single digit `0`.
pub open spec fn digits(n: nat, base: nat) -> Seq<char>
    recommends
        2 <= base <= 10,
    decreases n,
    via digits_decreases
{
    if n < base || base < 2 {
        seq![digit_char(n)]
    } else {
        digits(n / base, base).push(digit_char(n % base))
    }
}

#[via_fn]
proof fn digits_decreases(n: nat, base: nat) {
    if !(n < base || base < 2) {
        assert(n / base < n) by (nonlinear_arith)
            requires
                base >= 2,
                n >= base,
        ;
    }
}

fn digit(d: u64) -> (c: char)
    requires
        d < 10,
    ensures
        c == digit_char(d as nat),
{
    if d == 0 {
        '0'
    } else if d == 1 {
        '1'
    } else if d == 2 {
        '2'
    } else if d == 3 {
        '3'
    } else if d == 4 {
        '4'
    } else if d == 5 {
        '5'
    } else if d == 6 {
        '6'
    } else if d == 7 {
        '7'
    } else if d == 8 {
        '8'
    } else {
        '9'
    }
}

/// Appends the digits of `n` in the given base.
pub fn push_digits(text: &mut String, n: u64, base: u64)
    requires
        2 <= base <= 10,
    ensures
        final(text)@ == old(text)@ + digits(n as nat, base as nat),
    decreases n,
{
    if n < base {
        push_char(text, digit(n));
        assert(text@ =~= old(text)@ + digits(n as nat, base as nat));
    } else {
        assert(n / base < n) by (nonlinear_arith)
            requires
                base >= 2,
                n >= base,
        ;
        push_digits(text, n / base, base);
        push_char(text, digit(n % base));
        assert(text@ =~= old(text)@ + digits(n as nat, base as nat));
    }
}

/// Appends `n` in decimal.
pub fn push_decimal(text: &mut String, n: u64)
    ensures
        final(text)@ == old(text)@ + digits(n as nat, 10),
{
    push_digits(text, n, 10)
}

/// Appends `n` in octal.
pub fn push_octal(text: &mut String, n: u32)
    ensures
        final(text)@ == old(text)@ + digits(n as nat, 8),
{
    push_digits(text, n as u64, 8)
}

/// The word for a truth value.
pub open spec fn bool_word(flag: bool) -> Seq<char> {
    if flag {
        "true"@
    } else {
        "false"@
    }
}

/// Appends `true` or `false`.
pub fn push_bool(text: &mut String, flag: bool)
    ensures
        final(text)@ == old(text)@ + bool_word(flag),
{
    if flag {
        text.append("true");
    } else {
        text.append("false");
    }
}

/// The lines joined into one text, a line feed between each two.
pub open spec fn joined(lines: Seq<Seq<char>>) -> Seq<char>
    decreases lines.len(),
{
    if lines.len() == 0 {
        Seq::empty()
    } else if lines.len() == 1 {
        lines[0]
    } else {
        joined(lines.drop_last()) + seq!['\n'] + lines.last()
    }
}

/// The texts of a list of lines.
pub open spec fn texts(lines: Seq<String>) -> Seq<Seq<char>> {
    lines.map_values(|line: String| line@)
}

/// Joins the lines into one text, a line feed between each two.
pub fn join_lines(lines: &Vec<String>) -> (res: String)
    ensures
        res@ == joined(texts(lines@)),
{
    let mut res = String::new();
    let mut i: usize = 0;
    while i < lines.len()
        invariant
            i <= lines.len(),
            res@ == joined(texts(lines@).subrange(0, i as int)),
        decreases lines.len() - i,
    {
        let ghost before = texts(lines@).subrange(0, i as int);
        let ghost after = texts(lines@).subrange(0, i + 1);
        if i > 0 {
            push_char(&mut res, '\n');
        }
        res.append(lines[i].as_str());
        proof {
            assert(after.drop_last() =~= before);
            assert(after.last() == lines@[i as int]@);
            if i == 0 {
                assert(res@ =~= after[0]);
            }
        }
        i += 1;
    }
    assert(texts(lines@).subrange(0, lines.len() as int) =~= texts(lines@));
    res
}

} // verus!
