//! Byte strings: searching, replacing and decimal numerals.

use vstd::prelude::*;

verus! {

/// Whether `needle` stands in `text` at index `at`.
pub open spec fn occurs_at(text: Seq<u8>, needle: Seq<u8>, at: int) -> bool {
    0 <= at && at + needle.len() <= text.len() && text.subrange(at, at + needle.len()) == needle
}

/// Whether `needle` occurs somewhere in `text`.
pub open spec fn contains(text: Seq<u8>, needle: Seq<u8>) -> bool {
    exists|at: int| occurs_at(text, needle, at)
}

/// Whether `at` is the place of the leftmost occurrence of `needle` in `text`.
pub open spec fn first_occurrence(text: Seq<u8>, needle: Seq<u8>, at: int) -> bool {
    occurs_at(text, needle, at) && forall|k: int| 0 <= k < at ==> !occurs_at(text, needle, k)
}

/// `text` with every occurrence of `pattern` replaced by `with`, the occurrences
/// taken from the left and not overlapping. An empty pattern occurs nowhere.
pub open spec fn replaced(text: Seq<u8>, pattern: Seq<u8>, with: Seq<u8>) -> Seq<u8>
    decreases text.len(),
{
    if text.len() == 0 || pattern.len() == 0 {
        text
    } else if occurs_at(text, pattern, 0) {
        with + replaced(text.skip(pattern.len() as int), pattern, with)
    } else {
        seq![text[0]] + replaced(text.skip(1), pattern, with)
    }
}

/// The ASCII digit for `d`, which is below ten.
pub open spec fn digit(d: nat) -> u8 {
    (48 + d) as u8
}

/// The decimal numeral of `n` in ASCII, without leading zeros.
pub open spec fn decimal(n: nat) -> Seq<u8>
    decreases n,
{
    if n < 10 {
        seq![digit(n)]
    } else {
        decimal(n / 10).push(digit(n % 10))
    }
}

/// The number that a string of ASCII digits writes.
pub open spec fn numeral_value(digits: Seq<u8>) -> nat
    decreases digits.len(),
{
    if digits.len() == 0 {
        0
    } else {
        numeral_value(digits.drop_last()) * 10 + (digits.last() - 48) as nat
    }
}

/// Appends `more` to `out`.
pub fn append(out: &mut Vec<u8>, more: &[u8])
    ensures
        final(out)@ == old(out)@ + more@,
{
    let mut i: usize = 0;
    while i < more.len()
        invariant
            i <= more.len(),
            out@ == old(out)@ + more@.subrange(0, i as int),
        decreases more.len() - i,
    {
        out.push(more[i]);
        i += 1;
        assert(more@.subrange(0, i as int) =~= more@.subrange(0, i - 1).push(more@[i - 1]));
    }
    assert(more@.subrange(0, more@.len() as int) =~= more@);
}

/// Tells whether `needle` stands in `text` at index `at`.
pub fn matches_at(text: &[u8], needle: &[u8], at: usize) -> (r: bool)
    ensures
        r == occurs_at(text@, needle@, at as int),
{
    if at > text.len() || needle.len() > text.len() - at {
        return false;
    }
    let ghost window = text@.subrange(at as int, at + needle@.len());
    let mut j: usize = 0;
    while j < needle.len()
        invariant
            j <= needle.len(),
            at + needle.len() <= text.len(),
            window == text@.subrange(at as int, at + needle@.len()),
            forall|k: int| 0 <= k < j ==> window[k] == needle@[k],
        decreases needle.len() - j,
    {
        if text[at + j] != needle[j] {
            assert(window[j as int] != needle@[j as int]);
            return false;
        }
        j += 1;
    }
    assert(window =~= needle@);
    true
}

/// Tells whether `text` opens with `prefix`.
pub fn starts_with(text: &[u8], prefix: &[u8]) -> (r: bool)
    ensures
        r == occurs_at(text@, prefix@, 0),
{
    matches_at(text, prefix, 0)
}

/// Tells whether two byte strings are the same.
pub fn equal(a: &[u8], b: &[u8]) -> (r: bool)
    ensures
        r == (a@ == b@),
{
    let r = a.len() == b.len() && matches_at(a, b, 0);
    proof {
        if a@.len() == b@.len() {
            assert(a@.subrange(0, a@.len() as int) =~= a@);
        }
    }
    r
}

/// Finds the leftmost occurrence of `needle` in `text`.
pub fn find(text: &[u8], needle: &[u8]) -> (r: Option<usize>)
    ensures
        match r {
            Some(at) => first_occurrence(text@, needle@, at as int),
            None => !contains(text@, needle@),
        },
{
    let mut i: usize = 0;
    while i < text.len()
        invariant
            i <= text.len(),
            forall|k: int| 0 <= k < i ==> !occurs_at(text@, needle@, k),
        decreases text.len() - i,
    {
        if matches_at(text, needle, i) {
            return Some(i);
        }
        i += 1;
    }
    if matches_at(text, needle, i) {
        return Some(i);
    }
    None
}

/// Replaces every occurrence of `pattern` in `text` by `with`.
pub fn replace(text: &[u8], pattern: &[u8], with: &[u8]) -> (out: Vec<u8>)
    ensures
        out@ == replaced(text@, pattern@, with@),
{
    let mut out: Vec<u8> = Vec::new();
    let mut i: usize = 0;
    assert(out@ + replaced(text@.skip(0), pattern@, with@) =~= replaced(text@, pattern@, with@)) by {
        assert(text@.skip(0) =~= text@);
    }
    while i < text.len()
        invariant
            i <= text.len(),
            out@ + replaced(text@.skip(i as int), pattern@, with@) == replaced(
                text@,
                pattern@,
                with@,
            ),
        decreases text.len() - i,
    {
        let ghost rest = text@.skip(i as int);
        if pattern.len() > 0 && matches_at(text, pattern, i) {
            proof {
                assert(rest.subrange(0, pattern@.len() as int) =~= text@.subrange(
                    i as int,
                    i + pattern@.len(),
                ));
                assert(rest.skip(pattern@.len() as int) =~= text@.skip(i + pattern@.len()));
            }
            append(&mut out, with);
            i += pattern.len();
        } else {
            proof {
                if pattern@.len() > 0 {
                    if i + pattern@.len() <= text@.len() {
                        assert(rest.subrange(0, pattern@.len() as int) =~= text@.subrange(
                            i as int,
                            i + pattern@.len(),
                        ));
                    }
                    assert(rest.skip(1) =~= text@.skip(i + 1));
                } else {
                    assert(rest =~= seq![rest[0]] + text@.skip(i + 1));
                    assert(replaced(text@.skip(i + 1), pattern@, with@) == text@.skip(i + 1));
                }
            }
            out.push(text[i]);
            i += 1;
        }
        assert(out@ + replaced(text@.skip(i as int), pattern@, with@) =~= replaced(
            text@,
            pattern@,
            with@,
        ));
    }
    assert(out@ + replaced(text@.skip(i as int), pattern@, with@) =~= out@);
    out
}

/// Appends the decimal numeral of `n` to `out`.
pub fn append_decimal(out: &mut Vec<u8>, n: u64)
    ensures
        final(out)@ == old(out)@ + decimal(n as nat),
    decreases n,
{
    if n >= 10 {
        append_decimal(out, n / 10);
    }
    out.push(48 + (n % 10) as u8);
    assert(out@ =~= old(out)@ + decimal(n as nat));
}

/// The decimal numeral of a number is made of digits and writes that number.
pub proof fn decimal_writes_the_number(n: nat)
    ensures
        numeral_value(decimal(n)) == n,
        forall|i: int| 0 <= i < decimal(n).len() ==> 48 <= #[trigger] decimal(n)[i] <= 57,
        n > 0 ==> decimal(n)[0] != 48,
    decreases n,
{
    if n < 10 {
        assert(decimal(n).drop_last() =~= Seq::<u8>::empty());
        assert(numeral_value(decimal(n).drop_last()) == 0);
        assert(decimal(n).last() == 48 + n);
    } else {
        decimal_writes_the_number(n / 10);
        assert(decimal(n).drop_last() =~= decimal(n / 10));
        assert(decimal(n).last() == 48 + n % 10);
    }
}

/// In a text where `pattern` first occurs at `at`, replacing leaves what stands
/// before that place as it is, puts `with` there, and goes on behind the occurrence.
pub proof fn replaced_at_first_occurrence(text: Seq<u8>, pattern: Seq<u8>, with: Seq<u8>, at: int)
    requires
        pattern.len() > 0,
        first_occurrence(text, pattern, at),
    ensures
        replaced(text, pattern, with) == text.subrange(0, at) + with + replaced(
            text.skip(at + pattern.len()),
            pattern,
            with,
        ),
    decreases at,
{
    if at == 0 {
        assert(text.subrange(0, 0) + with =~= with);
    } else {
        assert(!occurs_at(text, pattern, 0));
        let rest = text.skip(1);
        assert(rest.subrange(at - 1, at - 1 + pattern.len()) =~= text.subrange(
            at,
            at + pattern.len(),
        ));
        assert forall|k: int| 0 <= k < at - 1 implies !occurs_at(rest, pattern, k) by {
            assert(rest.subrange(k, k + pattern.len()) =~= text.subrange(
                k + 1,
                k + 1 + pattern.len(),
            ));
            assert(!occurs_at(text, pattern, k + 1));
        }
        replaced_at_first_occurrence(rest, pattern, with, at - 1);
        assert(rest.skip(at - 1 + pattern.len()) =~= text.skip(at + pattern.len()));
        assert(seq![text[0]] + rest.subrange(0, at - 1) =~= text.subrange(0, at));
        assert(replaced(text, pattern, with) =~= text.subrange(0, at) + with + replaced(
            text.skip(at + pattern.len()),
            pattern,
            with,
        ));
    }
}

/// Replacing a pattern that does not occur changes nothing.
pub proof fn replaced_without_occurrence(text: Seq<u8>, pattern: Seq<u8>, with: Seq<u8>)
    requires
        !contains(text, pattern),
    ensures
        replaced(text, pattern, with) == text,
    decreases text.len(),
{
    if text.len() > 0 && pattern.len() > 0 {
        assert(!occurs_at(text, pattern, 0));
        let rest = text.skip(1);
        assert forall|k: int| !occurs_at(rest, pattern, k) by {
            if 0 <= k && k + pattern.len() <= rest.len() {
                assert(rest.subrange(k, k + pattern.len()) =~= text.subrange(
                    k + 1,
                    k + 1 + pattern.len(),
                ));
                assert(!occurs_at(text, pattern, k + 1));
            }
        }
        replaced_without_occurrence(rest, pattern, with);
        assert(seq![text[0]] + rest =~= text);
    }
}

} // verus!
