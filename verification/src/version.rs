//! Comparing the versions of a package before and after an update.

use crate::colors::VersionChange;
use crate::text::{find_char, find_char_from, lemma_find_char_bounds, subvec, to_chars};
use vstd::prelude::*;

verus! {

/// The value of the decimal digit `c`.
pub open spec fn digit_value(c: char) -> nat {
    (c as u32 - '0' as u32) as nat
}

/// The number that the decimal digits `digits` write.
pub open spec fn decimal_value(digits: Seq<char>) -> nat
    decreases digits.len(),
{
    if digits.len() == 0 {
        0
    } else {
        decimal_value(digits.drop_last()) * 10 + digit_value(digits.last())
    }
}

/// Whether `s` holds decimal digits only.
pub open spec fn all_digits(s: Seq<char>) -> bool {
    forall|i: int| 0 <= i < s.len() ==> '0' <= #[trigger] s[i] <= '9'
}

/// The digits of a number: `piece` without a plus sign in front.
pub open spec fn unsigned(piece: Seq<char>) -> Seq<char> {
    if piece.len() > 0 && piece[0] == '+' {
        piece.drop_first()
    } else {
        piece
    }
}

/// The number that `piece` writes: digits, with or without a plus sign in
/// front, whose value fits 64 bits.
pub open spec fn number_of(piece: Seq<char>) -> Option<u64> {
    let digits = unsigned(piece);
    if digits.len() > 0 && all_digits(digits) && decimal_value(digits) <= u64::MAX {
        Some(decimal_value(digits) as u64)
    } else {
        None
    }
}

/// The first index at or after `i` that holds no `v`.
pub open spec fn skip_v(s: Seq<char>, i: int) -> int
    decreases s.len() - i,
{
    if 0 <= i < s.len() && s[i] == 'v' {
        skip_v(s, i + 1)
    } else {
        i
    }
}

/// The numbers of the pieces of `s[i..]` between dots. Of each piece only
/// what stands in front of its first hyphen counts, and a piece that
/// writes no number is left out.
pub open spec fn parts_from(s: Seq<char>, i: int) -> Seq<u64>
    decreases s.len() + 1 - i,
{
    if 0 <= i <= s.len() {
        let dot = find_char(s, '.', i);
        let piece = s.subrange(i, dot);
        let head = piece.subrange(0, find_char(piece, '-', 0));
        let rest = if i <= dot < s.len() {
            parts_from(s, dot + 1)
        } else {
            Seq::<u64>::empty()
        };
        match number_of(head) {
            Some(n) => seq![n] + rest,
            None => rest,
        }
    } else {
        Seq::<u64>::empty()
    }
}

/// The numbers of a version, without the `v`s in front of it.
pub open spec fn parts_of(version: Seq<char>) -> Seq<u64> {
    parts_from(version, skip_v(version, 0))
}

/// How `after` stands to `before` from index `i` on: the first pair of
/// numbers that differ decides, and else the version with more numbers is
/// the later one.
pub open spec fn change_from(before: Seq<u64>, after: Seq<u64>, i: int) -> VersionChange
    decreases before.len() - i,
{
    if 0 <= i < before.len() && i < after.len() {
        if before[i] < after[i] {
            VersionChange::Upgraded
        } else if before[i] > after[i] {
            VersionChange::Downgraded
        } else {
            change_from(before, after, i + 1)
        }
    } else if before.len() < after.len() {
        VersionChange::Upgraded
    } else if before.len() > after.len() {
        VersionChange::Downgraded
    } else {
        VersionChange::Unchanged
    }
}

proof fn lemma_decimal_value_grows(digits: Seq<char>, k: int)
    requires
        0 <= k <= digits.len(),
    ensures
        decimal_value(digits.take(k)) <= decimal_value(digits),
    decreases digits.len() - k,
{
    if k < digits.len() {
        lemma_decimal_value_grows(digits, k + 1);
        assert(digits.take(k + 1).drop_last() =~= digits.take(k));
    } else {
        assert(digits.take(k) =~= digits);
    }
}

/// The number that `piece` writes.
pub fn parse_number(piece: &Vec<char>) -> (n: Option<u64>)
    ensures
        n == number_of(piece@),
{
    let start: usize = if piece.len() > 0 && piece[0] == '+' { 1 } else { 0 };
    let digits = subvec(piece, start, piece.len());
    if digits.len() == 0 {
        return None;
    }
    let mut value: u64 = 0;
    let mut i: usize = 0;
    while i < digits.len()
        invariant
            i <= digits.len(),
            digits@.len() > 0,
            digits@ == unsigned(piece@),
            all_digits(digits@.take(i as int)),
            value == decimal_value(digits@.take(i as int)),
        decreases digits.len() - i,
    {
        let c = digits[i];
        if !('0' <= c && c <= '9') {
            assert(!all_digits(digits@));
            return None;
        }
        let d: u64 = (c as u32 - '0' as u32) as u64;
        proof {
            assert(digits@.take(i + 1).drop_last() =~= digits@.take(i as int));
            lemma_decimal_value_grows(digits@, i + 1);
        }
        if value > (u64::MAX - d) / 10 {
            assert(value * 10 + d > u64::MAX) by (nonlinear_arith)
                requires
                    value > (u64::MAX - d) / 10,
                    0 <= d <= 9,
            ;
            return None;
        }
        value = value * 10 + d;
        i += 1;
    }
    assert(digits@.take(i as int) =~= digits@);
    Some(value)
}

/// The numbers of `version`.
pub fn version_parts(version: &str) -> (parts: Vec<u64>)
    ensures
        parts@ == parts_of(version@),
{
    let text = to_chars(version);
    let mut start: usize = 0;
    while start < text.len() && text[start] == 'v'
        invariant
            start <= text.len(),
            skip_v(text@, start as int) == skip_v(text@, 0),
        decreases text.len() - start,
    {
        start += 1;
    }
    let mut parts: Vec<u64> = Vec::new();
    let mut i: usize = start;
    let mut done: bool = false;
    while !done
        invariant
            i <= text.len(),
            text@ == version@,
            !done ==> parts_of(version@) == parts@ + parts_from(text@, i as int),
            done ==> parts_of(version@) == parts@,
        decreases if done { 0 } else { text.len() + 1 - i },
    {
        let dot = find_char_from(&text, '.', i);
        proof {
            lemma_find_char_bounds(text@, '.', i as int);
        }
        let piece = subvec(&text, i, dot);
        let hyphen = find_char_from(&piece, '-', 0);
        let head = subvec(&piece, 0, hyphen);
        if let Some(n) = parse_number(&head) {
            parts.push(n);
        }
        if dot < text.len() {
            i = dot + 1;
        } else {
            done = true;
        }
    }
    parts
}

/// How the numbers `after` stand to the numbers `before`.
pub fn compare_parts(before: &Vec<u64>, after: &Vec<u64>) -> (change: VersionChange)
    ensures
        change == change_from(before@, after@, 0),
{
    let mut i: usize = 0;
    while i < before.len() && i < after.len()
        invariant
            i <= before.len(),
            i <= after.len(),
            change_from(before@, after@, 0) == change_from(before@, after@, i as int),
        decreases before.len() - i,
    {
        if before[i] < after[i] {
            return VersionChange::Upgraded;
        }
        if before[i] > after[i] {
            return VersionChange::Downgraded;
        }
        i += 1;
    }
    if before.len() < after.len() {
        VersionChange::Upgraded
    } else if before.len() > after.len() {
        VersionChange::Downgraded
    } else {
        VersionChange::Unchanged
    }
}

/// How a package's version moved from `before` to `after`: the versions
/// are compared number by number.
pub fn version_change(before: &str, after: &str) -> (change: VersionChange)
    ensures
        change == change_from(parts_of(before@), parts_of(after@), 0),
{
    compare_parts(&version_parts(before), &version_parts(after))
}

} // verus!
