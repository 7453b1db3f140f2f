//! Small verified helpers on text: prefixes, substring search with and
//! without ASCII case folding, decimal rendering and concatenation.

use vstd::prelude::*;

verus! {

/// The ASCII lower-case form of `c`; every other character is left as it is.
pub open spec fn ascii_lower(c: char) -> char {
    if 'A' <= c && c <= 'Z' {
        ((c as u8) + 32u8) as char
    } else {
        c
    }
}

/// `c` itself, or its ASCII lower-case form when `fold` is set.
pub open spec fn fold_char(c: char, fold: bool) -> char {
    if fold {
        ascii_lower(c)
    } else {
        c
    }
}

/// `needle` stands in `hay` at offset `at`, compared character by character
/// after folding.
pub open spec fn matches_at(hay: Seq<char>, needle: Seq<char>, at: int, fold: bool) -> bool {
    &&& 0 <= at
    &&& at + needle.len() <= hay.len()
    &&& forall|j: int|
        0 <= j < needle.len() ==> fold_char(hay[at + j], fold) == fold_char(
            #[trigger] needle[j],
            fold,
        )
}

/// `needle` occurs somewhere in `hay`.
pub open spec fn text_contains(hay: Seq<char>, needle: Seq<char>) -> bool {
    exists|at: int| matches_at(hay, needle, at, false)
}

/// `needle` occurs somewhere in `hay` when ASCII letters are compared without
/// regard to case.
pub open spec fn text_contains_ignore_case(hay: Seq<char>, needle: Seq<char>) -> bool {
    exists|at: int| matches_at(hay, needle, at, true)
}

/// The character of the decimal digit `d`.
pub open spec fn digit_char(d: nat) -> char {
    (('0' as u8) + (d as u8)) as char
}

/// The decimal digits of `n`, most significant first, without leading zeros.
pub open spec fn decimal(n: nat) -> Seq<char>
    decreases n,
{
    if n < 10 {
        seq![digit_char(n)]
    } else {
        decimal(n / 10).push(digit_char(n % 10))
    }
}

/// The decimal form of a signed number: a minus sign before the digits of a
/// negative one.
pub open spec fn signed_decimal(n: int) -> Seq<char> {
    if n < 0 {
        seq!['-'] + decimal((-n) as nat)
    } else {
        decimal(n as nat)
    }
}

/// The texts of a list of strings.
pub open spec fn texts(list: Seq<String>) -> Seq<Seq<char>> {
    Seq::new(list.len(), |i: int| list[i]@)
}

/// The characters of `s`, in order.
pub fn chars_of(s: &str) -> (v: Vec<char>)
    ensures
        v@ == s@,
{
    let mut v: Vec<char> = Vec::new();
    for c in it: s.chars()
        invariant
            it.seq() == s@,
            v@ == it.seq().take(it.index() as int),
    {
        v.push(c);
        assert(it.seq().take(it.index() + 1) =~= it.seq().take(it.index() as int).push(c));
    }
    assert(v@ =~= s@);
    v
}

/// The ASCII lower-case form of `c`.
pub fn lower_char(c: char) -> (r: char)
    ensures
        r == ascii_lower(c),
{
    if 'A' <= c && c <= 'Z' {
        ((c as u8) + 32u8) as char
    } else {
        c
    }
}

fn folded(c: char, fold: bool) -> (r: char)
    ensures
        r == fold_char(c, fold),
{
    if fold {
        lower_char(c)
    } else {
        c
    }
}

fn matches_here(hay: &Vec<char>, needle: &Vec<char>, at: usize, fold: bool) -> (b: bool)
    requires
        at + needle.len() <= hay.len(),
    ensures
        b == matches_at(hay@, needle@, at as int, fold),
{
    let mut j: usize = 0;
    while j < needle.len()
        invariant
            j <= needle.len(),
            at + needle.len() <= hay.len(),
            forall|k: int|
                0 <= k < j ==> fold_char(hay@[at + k], fold) == fold_char(
                    #[trigger] needle@[k],
                    fold,
                ),
        decreases needle.len() - j,
    {
        if folded(hay[at + j], fold) != folded(needle[j], fold) {
            return false;
        }
        j = j + 1;
    }
    true
}

/// The first offset at which `needle` stands in `hay`, if there is one.
pub fn find_chars(hay: &Vec<char>, needle: &Vec<char>, fold: bool) -> (r: Option<usize>)
    ensures
        match r {
            Some(at) => matches_at(hay@, needle@, at as int, fold) && forall|k: int|
                0 <= k < at ==> !matches_at(hay@, needle@, k, fold),
            None => forall|k: int| !matches_at(hay@, needle@, k, fold),
        },
{
    if needle.len() > hay.len() {
        return None;
    }
    let last: usize = hay.len() - needle.len();
    let mut at: usize = 0;
    while at <= last
        invariant
            at <= last + 1,
            last == hay.len() - needle.len(),
            needle.len() <= hay.len(),
            forall|k: int| 0 <= k < at ==> !matches_at(hay@, needle@, k, fold),
        decreases last + 1 - at,
    {
        if matches_here(hay, needle, at, fold) {
            return Some(at);
        }
        at = at + 1;
    }
    None
}

/// Whether `s` begins with `prefix`.
pub fn starts_with(s: &str, prefix: &str) -> (b: bool)
    ensures
        b == prefix@.is_prefix_of(s@),
{
    let hay = chars_of(s);
    let needle = chars_of(prefix);
    if needle.len() > hay.len() {
        return false;
    }
    let b = matches_here(&hay, &needle, 0, false);
    proof {
        if b {
            assert(prefix@ =~= s@.subrange(0, prefix@.len() as int));
        } else {
            if prefix@.is_prefix_of(s@) {
                assert forall|j: int| 0 <= j < needle@.len() implies hay@[0 + j] == #[trigger] needle@[j] by {
                    assert(s@.subrange(0, prefix@.len() as int)[j] == s@[j]);
                }
            }
        }
    }
    b
}

/// Whether `needle` occurs in `hay`.
pub fn contains(hay: &str, needle: &str) -> (b: bool)
    ensures
        b == text_contains(hay@, needle@),
{
    let h = chars_of(hay);
    let n = chars_of(needle);
    find_chars(&h, &n, false).is_some()
}

/// Whether `needle` occurs in `hay`, ASCII letters compared without regard to
/// case.
pub fn contains_ignore_ascii_case(hay: &str, needle: &str) -> (b: bool)
    ensures
        b == text_contains_ignore_case(hay@, needle@),
{
    let h = chars_of(hay);
    let n = chars_of(needle);
    find_chars(&h, &n, true).is_some()
}

/// Whether the two texts hold the same characters.
pub fn same_text(a: &str, b: &str) -> (r: bool)
    ensures
        r == (a@ == b@),
{
    let x = a.to_string();
    let y = b.to_string();
    x == y
}

fn digit_text(d: u64) -> (s: &'static str)
    requires
        d < 10,
    ensures
        s@ == seq![digit_char(d as nat)],
{
    proof {
        reveal_strlit("0");
        reveal_strlit("1");
        reveal_strlit("2");
        reveal_strlit("3");
        reveal_strlit("4");
        reveal_strlit("5");
        reveal_strlit("6");
        reveal_strlit("7");
        reveal_strlit("8");
        reveal_strlit("9");
    }
    let s = if d == 0 {
        "0"
    } else if d == 1 {
        "1"
    } else if d == 2 {
        "2"
    } else if d == 3 {
        "3"
    } else if d == 4 {
        "4"
    } else if d == 5 {
        "5"
    } else if d == 6 {
        "6"
    } else if d == 7 {
        "7"
    } else if d == 8 {
        "8"
    } else {
        "9"
    };
    assert(s@ =~= seq![digit_char(d as nat)]);
    s
}

/// `n` in decimal.
pub fn decimal_u64(n: u64) -> (s: String)
    ensures
        s@ == decimal(n as nat),
    decreases n,
{
    if n < 10 {
        digit_text(n).to_string()
    } else {
        let mut s = decimal_u64(n / 10);
        s.append(digit_text(n % 10));
        assert(s@ =~= decimal((n / 10) as nat).push(digit_char((n % 10) as nat)));
        s
    }
}

/// `n` in decimal, with a minus sign if it is negative.
pub fn decimal_i32(n: i32) -> (s: String)
    ensures
        s@ == signed_decimal(n as int),
{
    if n < 0 {
        let magnitude: u64 = (-(n as i64)) as u64;
        let digits = decimal_u64(magnitude);
        proof {
            reveal_strlit("-");
        }
        let mut s = "-".to_string();
        s.append(digits.as_str());
        assert(s@ =~= seq!['-'] + decimal((-(n as int)) as nat));
        s
    } else {
        decimal_u64(n as u64)
    }
}

/// `a` followed by `b`.
pub fn concat2(a: &str, b: &str) -> (s: String)
    ensures
        s@ == a@ + b@,
{
    let mut s = a.to_string();
    s.append(b);
    s
}

/// `a`, `b` and `c` one after the other.
pub fn concat3(a: &str, b: &str, c: &str) -> (s: String)
    ensures
        s@ == a@ + b@ + c@,
{
    let mut s = a.to_string();
    s.append(b);
    s.append(c);
    s
}

} // verus!
