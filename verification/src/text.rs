//! Small operations on strings, stated over their characters.

use vstd::prelude::*;
use vstd::string::StringExecFns;

verus! {

/// Some character of `s` at or after position 0 is `c`, followed directly by
/// a character that satisfies `next`.
pub open spec fn has_pair(s: Seq<char>, c: char, next: spec_fn(char) -> bool) -> bool {
    exists|i: int| 0 <= i && i + 1 < s.len() && s[i] == c && next(#[trigger] s[i + 1])
}

/// `c` is one of the letters `a` to `z` or `A` to `Z`.
pub open spec fn is_ascii_letter(c: char) -> bool {
    ('a' <= c && c <= 'z') || ('A' <= c && c <= 'Z')
}

/// The text holds a start tag somewhere: a `<` directly followed by a
/// letter. A text without one is plain text at best, with no element of
/// its own.
pub open spec fn has_element_markup(s: Seq<char>) -> bool {
    has_pair(s, '<', |c: char| is_ascii_letter(c))
}

/// Two dots stand side by side somewhere in the text.
pub open spec fn has_double_dot(s: Seq<char>) -> bool {
    has_pair(s, '.', |c: char| c == '.')
}

/// Neither `<` nor `>` occurs in the text.
pub open spec fn no_markup_delimiters(s: Seq<char>) -> bool {
    !s.contains('<') && !s.contains('>')
}

/// The characters of a text that may be absent.
pub open spec fn text_view(text: Option<String>) -> Option<Seq<char>> {
    match text {
        Some(s) => Some(s@),
        None => None,
    }
}

/// The characters of `s`, one by one.
pub fn chars_of(s: &str) -> (v: Vec<char>)
    ensures
        v@ == s@,
{
    let mut v: Vec<char> = Vec::new();
    for c in it: s.chars()
        invariant
            it.seq() == s@,
            v@ == s@.take(it.index() as int),
    {
        v.push(c);
    }
    v
}

/// Whether `a` and `b` hold the same characters.
pub fn str_eq(a: &str, b: &str) -> (r: bool)
    ensures
        r == (a@ == b@),
{
    a.to_owned() == b.to_owned()
}

/// Whether `s` begins with `prefix`.
pub fn starts_with(s: &str, prefix: &str) -> (r: bool)
    ensures
        r == prefix@.is_prefix_of(s@),
{
    let sv = chars_of(s);
    let pv = chars_of(prefix);
    if pv.len() > sv.len() {
        return false;
    }
    let mut i: usize = 0;
    while i < pv.len()
        invariant
            i <= pv.len(),
            pv.len() <= sv.len(),
            sv@ == s@,
            pv@ == prefix@,
            forall|j: int| 0 <= j < i ==> s@[j] == prefix@[j],
        decreases pv.len() - i,
    {
        if sv[i] != pv[i] {
            return false;
        }
        i = i + 1;
    }
    true
}

/// Whether `c` occurs in `s`.
pub fn contains_char(s: &str, c: char) -> (r: bool)
    ensures
        r == s@.contains(c),
{
    let mut found = false;
    for x in it: s.chars()
        invariant
            it.seq() == s@,
            found == (exists|i: int| 0 <= i < it.index() && s@[i] == c),
    {
        if x == c {
            found = true;
        }
    }
    found
}

/// Whether two dots stand side by side somewhere in `s`.
pub fn contains_double_dot(s: &str) -> (r: bool)
    ensures
        r == has_double_dot(s@),
{
    let mut found = false;
    let mut after_dot = false;
    let ghost next = |c: char| c == '.';
    for x in it: s.chars()
        invariant
            it.seq() == s@,
            next == (|c: char| c == '.'),
            after_dot == (it.index() > 0 && s@[it.index() - 1] == '.'),
            found == has_pair(s@.take(it.index() as int), '.', next),
    {
        proof {
            let k = it.index() as int;
            lemma_pair_step(s@, k, '.', next);
        }
        if after_dot && x == '.' {
            found = true;
        }
        after_dot = x == '.';
    }
    proof {
        assert(s@.take(s@.len() as int) =~= s@);
    }
    found
}

/// Whether `html` holds a start tag somewhere.
pub fn contains_element_markup(html: &str) -> (r: bool)
    ensures
        r == has_element_markup(html@),
{
    let mut found = false;
    let mut after_open = false;
    let ghost next = |c: char| is_ascii_letter(c);
    for x in it: html.chars()
        invariant
            it.seq() == html@,
            next == (|c: char| is_ascii_letter(c)),
            after_open == (it.index() > 0 && html@[it.index() - 1] == '<'),
            found == has_pair(html@.take(it.index() as int), '<', next),
    {
        proof {
            let k = it.index() as int;
            lemma_pair_step(html@, k, '<', next);
        }
        if after_open && (('a' <= x && x <= 'z') || ('A' <= x && x <= 'Z')) {
            found = true;
        }
        after_open = x == '<';
    }
    proof {
        assert(html@.take(html@.len() as int) =~= html@);
    }
    found
}

/// The character that writes the digit `d`.
pub open spec fn digit(d: nat) -> char {
    if d == 0 {
        '0'
    } else if d == 1 {
        '1'
    } else if d == 2 {
        '2'
    } else if d == 3 {
        '3'
    } else if d == 4 {
        '4'
    } else if d == 5 {
        '5'
    } else if d == 6 {
        '6'
    } else if d == 7 {
        '7'
    } else if d == 8 {
        '8'
    } else {
        '9'
    }
}

/// The digits that write `n` in base ten, without leading zeros.
pub open spec fn decimal(n: nat) -> Seq<char>
    decreases n,
{
    if n < 10 {
        seq![digit(n)]
    } else {
        decimal(n / 10).push(digit(n % 10))
    }
}

/// The text of one digit.
fn digit_text(d: u32) -> (r: &'static str)
    requires
        d < 10,
    ensures
        r@ == seq![digit(d as nat)],
{
    let text = if d == 0 {
        proof { reveal_strlit("0"); }
        "0"
    } else if d == 1 {
        proof { reveal_strlit("1"); }
        "1"
    } else if d == 2 {
        proof { reveal_strlit("2"); }
        "2"
    } else if d == 3 {
        proof { reveal_strlit("3"); }
        "3"
    } else if d == 4 {
        proof { reveal_strlit("4"); }
        "4"
    } else if d == 5 {
        proof { reveal_strlit("5"); }
        "5"
    } else if d == 6 {
        proof { reveal_strlit("6"); }
        "6"
    } else if d == 7 {
        proof { reveal_strlit("7"); }
        "7"
    } else if d == 8 {
        proof { reveal_strlit("8"); }
        "8"
    } else {
        proof { reveal_strlit("9"); }
        "9"
    };
    text
}

/// Writes `n` in base ten.
pub fn decimal_text(n: u32) -> (r: String)
    ensures
        r@ == decimal(n as nat),
    decreases n,
{
    if n < 10 {
        String::from_str(digit_text(n))
    } else {
        let r = decimal_text(n / 10).concat(digit_text(n % 10));
        r
    }
}

/// Taking one more character of `s` adds a pair exactly when the new
/// character satisfies `next` and stands directly after `c`.
proof fn lemma_pair_step(s: Seq<char>, k: int, c: char, next: spec_fn(char) -> bool)
    requires
        0 <= k < s.len(),
    ensures
        has_pair(s.take(k + 1), c, next) == (has_pair(s.take(k), c, next) || (k > 0 && s[k - 1]
            == c && next(s[k]))),
{
    let shorter = s.take(k);
    let longer = s.take(k + 1);
    if has_pair(shorter, c, next) {
        let i = choose|i: int|
            0 <= i && i + 1 < shorter.len() && shorter[i] == c && next(#[trigger] shorter[i + 1]);
        assert(longer[i] == c && next(longer[i + 1]));
    }
    if k > 0 && s[k - 1] == c && next(s[k]) {
        assert(longer[k - 1] == c && next(longer[(k - 1) + 1]));
    }
    if has_pair(longer, c, next) {
        let i = choose|i: int|
            0 <= i && i + 1 < longer.len() && longer[i] == c && next(#[trigger] longer[i + 1]);
        if i + 1 < k {
            assert(shorter[i] == c && next(shorter[i + 1]));
        }
    }
}

} // verus!
