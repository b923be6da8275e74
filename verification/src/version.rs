//! Release versions of the form `major.minor[.patch]` and their order.

use vstd::prelude::*;
use crate::text::{chars_of, digits_number, parse_digits};

verus! {

/// `s` without a leading plus sign.
pub open spec fn unsigned_part(s: Seq<char>) -> Seq<char> {
    if s.len() > 0 && s[0] == '+' {
        s.drop_first()
    } else {
        s
    }
}

/// The 32-bit number that `s` spells: an optional plus sign, then at least
/// one decimal digit, the value within range.
pub open spec fn number(s: Seq<char>) -> Option<u32> {
    match digits_number(unsigned_part(s), u32::MAX as nat) {
        Some(value) => Some(value as u32),
        None => None,
    }
}

/// Index of the first `c` in `s` at or after `from`; the length of `s` if
/// there is none.
pub open spec fn find_from(s: Seq<char>, c: char, from: int) -> int
    decreases s.len() - from,
{
    if from >= s.len() {
        s.len() as int
    } else if s[from] == c {
        from
    } else {
        find_from(s, c, from + 1)
    }
}

/// Number of times `c` stands at the start of `s`.
pub open spec fn leading_run(s: Seq<char>, c: char) -> nat
    decreases s.len(),
{
    if s.len() > 0 && s[0] == c {
        1 + leading_run(s.drop_first(), c)
    } else {
        0
    }
}

/// The version that `text` spells. Leading `v`s are dropped; what is left
/// is cut at its dots. Two parts give major and minor with patch 0; three or
/// more give major, minor and patch from the first three. Each part used
/// must be a number; anything else is no version.
pub open spec fn version_of(text: Seq<char>) -> Option<(u32, u32, u32)> {
    let v = text.skip(leading_run(text, 'v') as int);
    let end0 = find_from(v, '.', 0);
    if end0 >= v.len() {
        None
    } else {
        let end1 = find_from(v, '.', end0 + 1);
        let major = number(v.subrange(0, end0));
        let minor = number(v.subrange(end0 + 1, end1));
        if end1 >= v.len() {
            if major is Some && minor is Some {
                Some((major->0, minor->0, 0u32))
            } else {
                None
            }
        } else {
            let end2 = find_from(v, '.', end1 + 1);
            let patch = number(v.subrange(end1 + 1, end2));
            if major is Some && minor is Some && patch is Some {
                Some((major->0, minor->0, patch->0))
            } else {
                None
            }
        }
    }
}

/// Whether version `latest` comes after version `current`, comparing major,
/// then minor, then patch.
pub open spec fn newer(current: (u32, u32, u32), latest: (u32, u32, u32)) -> bool {
    latest.0 > current.0 || (latest.0 == current.0 && latest.1 > current.1) || (latest.0 == current.0
        && latest.1 == current.1 && latest.2 > current.2)
}

/// Reads the number spelled by `s[from..to]`.
fn parse_number(s: &Vec<char>, from: usize, to: usize) -> (n: Option<u32>)
    requires
        from <= to <= s@.len(),
    ensures
        n == number(s@.subrange(from as int, to as int)),
{
    let signed = from < to && s[from] == '+';
    let start: usize = if signed {
        from + 1
    } else {
        from
    };
    assert(unsigned_part(s@.subrange(from as int, to as int)) =~= s@.subrange(start as int, to as int));
    match parse_digits(s, start, to, 0xffff_ffff) {
        Some(value) => Some(value as u32),
        None => None,
    }
}

/// Index of the first `c` in `s` at or after `from`.
fn find_char(s: &Vec<char>, c: char, from: usize) -> (at: usize)
    requires
        from <= s@.len(),
    ensures
        at == find_from(s@, c, from as int),
        from <= at <= s@.len(),
{
    let mut i: usize = from;
    while i < s.len() && s[i] != c
        invariant
            from <= i <= s@.len(),
            find_from(s@, c, from as int) == find_from(s@, c, i as int),
        decreases s@.len() - i,
    {
        i = i + 1;
    }
    i
}

pub fn parse_version(version: &str) -> (parsed: Option<(u32, u32, u32)>)
    ensures
        parsed == version_of(version@),
{
    let text = chars_of(version);
    let mut skip: usize = 0;
    assert(text@.skip(0) =~= text@);
    while skip < text.len() && text[skip] == 'v'
        invariant
            skip <= text@.len(),
            skip + leading_run(text@.skip(skip as int), 'v') == leading_run(text@, 'v'),
        decreases text@.len() - skip,
    {
        proof {
            lemma_leading_run_step(text@, 'v', skip as int);
        }
        skip = skip + 1;
    }
    assert(leading_run(text@.skip(skip as int), 'v') == 0);
    let mut v: Vec<char> = Vec::new();
    let mut k: usize = skip;
    while k < text.len()
        invariant
            skip <= k <= text@.len(),
            v@ == text@.subrange(skip as int, k as int),
        decreases text@.len() - k,
    {
        v.push(text[k]);
        assert(v@ =~= text@.subrange(skip as int, k + 1));
        k = k + 1;
    }
    assert(v@ =~= text@.skip(skip as int));
    let end0 = find_char(&v, '.', 0);
    if end0 >= v.len() {
        return None;
    }
    let end1 = find_char(&v, '.', end0 + 1);
    let major = parse_number(&v, 0, end0);
    let minor = parse_number(&v, end0 + 1, end1);
    if end1 >= v.len() {
        return match (major, minor) {
            (Some(a), Some(b)) => Some((a, b, 0)),
            _ => None,
        };
    }
    let end2 = find_char(&v, '.', end1 + 1);
    let patch = parse_number(&v, end1 + 1, end2);
    match (major, minor, patch) {
        (Some(a), Some(b), Some(c)) => Some((a, b, c)),
        _ => None,
    }
}

proof fn lemma_leading_run_step(s: Seq<char>, c: char, k: int)
    requires
        0 <= k < s.len(),
        s[k] == c,
    ensures
        leading_run(s.skip(k), c) == 1 + leading_run(s.skip(k + 1), c),
{
    assert(s.skip(k).drop_first() =~= s.skip(k + 1));
}

pub fn is_newer_version(current: &str, latest: &str) -> (yes: bool)
    ensures
        yes == (version_of(current@) is Some && version_of(latest@) is Some && newer(
            version_of(current@)->0,
            version_of(latest@)->0,
        )),
{
    match (parse_version(current), parse_version(latest)) {
        (Some((c_major, c_minor, c_patch)), Some((l_major, l_minor, l_patch))) => {
            if l_major > c_major {
                return true;
            }
            if l_major == c_major && l_minor > c_minor {
                return true;
            }
            if l_major == c_major && l_minor == c_minor && l_patch > c_patch {
                return true;
            }
            false
        },
        _ => false,
    }
}

} // verus!
