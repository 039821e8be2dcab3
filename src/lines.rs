use vstd::prelude::*;

verus! {

/// The line terminator.
pub const NEWLINE: u8 = 10;

/// `i` is where a line of `s` begins.
pub open spec fn starts_line(s: Seq<u8>, i: int) -> bool {
    i == 0 || s[i - 1] == NEWLINE
}

/// The line of `s` that begins at `i` is `line` followed by a terminator.
pub open spec fn is_line_at(s: Seq<u8>, i: int, line: Seq<u8>) -> bool {
    &&& 0 <= i
    &&& i + line.len() + 1 <= s.len()
    &&& starts_line(s, i)
    &&& s.subrange(i, i + line.len() + 1) == line.push(NEWLINE)
}

/// Some line of `s`, terminator included, equals `line` plus a terminator.
/// A `line` that holds a terminator itself spans two lines, so it never matches.
pub open spec fn contains_line(s: Seq<u8>, line: Seq<u8>) -> bool {
    &&& !line.contains(NEWLINE)
    &&& exists|i: int| is_line_at(s, i, line)
}

/// The file content after appending `line` unless it is already present.
pub open spec fn after_append(s: Seq<u8>, line: Seq<u8>) -> Seq<u8> {
    if contains_line(s, line) {
        s
    } else {
        s + line.push(NEWLINE)
    }
}

/// Whether `s` holds `cand` starting at `i`.
fn matches_at(s: &Vec<u8>, i: usize, cand: &Vec<u8>) -> (r: bool)
    requires
        i + cand@.len() <= s@.len(),
    ensures
        r == (s@.subrange(i as int, i + cand@.len()) == cand@),
{
    let n = s.len();
    let mut k: usize = 0;
    while k < cand.len()
        invariant
            n == s@.len(),
            i + cand@.len() <= s@.len(),
            k <= cand@.len(),
            forall|j: int| 0 <= j < k ==> s@[i + j] == cand@[j],
        decreases cand@.len() - k,
    {
        if s[i + k] != cand[k] {
            assert(s@.subrange(i as int, i + cand@.len())[k as int] != cand@[k as int]);
            return false;
        }
        k = k + 1;
    }
    assert(s@.subrange(i as int, i + cand@.len()) =~= cand@);
    true
}

/// The bytes to append to a file holding `existing` so that it holds `line`
/// as a line of its own: `line` plus a terminator, or nothing when such a line
/// is already there. A file that is missing or cannot be read counts as empty.
pub fn line_to_append(existing: &Vec<u8>, line: &Vec<u8>) -> (r: Option<Vec<u8>>)
    requires
        line@.len() < usize::MAX,
    ensures
        contains_line(existing@, line@) ==> r is None,
        !contains_line(existing@, line@) ==> r is Some && r->Some_0@ == line@.push(NEWLINE),
        after_append(existing@, line@) == match r {
            Some(v) => existing@ + v@,
            None => existing@,
        },
{
    let mut cand = line.clone();
    cand.push(NEWLINE);
    let mut k: usize = 0;
    while k < line.len()
        invariant
            cand@ == line@.push(NEWLINE),
            k <= line@.len(),
            forall|j: int| 0 <= j < k ==> line@[j] != NEWLINE,
        decreases line@.len() - k,
    {
        if line[k] == NEWLINE {
            assert(line@.contains(NEWLINE));
            return Some(cand);
        }
        k = k + 1;
    }
    let mut i: usize = 0;
    while i < existing.len()
        invariant
            cand@ == line@.push(NEWLINE),
            !line@.contains(NEWLINE),
            i <= existing@.len(),
            forall|j: int| 0 <= j < i ==> !is_line_at(existing@, j, line@),
        decreases existing@.len() - i,
    {
        if (i == 0 || existing[i - 1] == NEWLINE) && cand.len() <= existing.len() - i {
            if matches_at(existing, i, &cand) {
                assert(is_line_at(existing@, i as int, line@));
                return None;
            }
        }
        i = i + 1;
    }
    Some(cand)
}

/// Appending a line twice leaves the file as appending it once does, with the
/// line present; where it was absent, it then occurs exactly once, at the end.
/// This holds of a file that is empty or ends with a terminator, and of a line
/// that holds no terminator.
pub proof fn twice_is_once(s: Seq<u8>, line: Seq<u8>)
    requires
        s.len() == 0 || s.last() == NEWLINE,
        !line.contains(NEWLINE),
    ensures
        after_append(after_append(s, line), line) == after_append(s, line),
        contains_line(after_append(s, line), line),
        !contains_line(s, line) ==> forall|i: int|
            is_line_at(after_append(s, line), i, line) <==> i == s.len(),
{
    let t = s + line.push(NEWLINE);
    if !contains_line(s, line) {
        assert(t.subrange(s.len() as int, s.len() + line.len() + 1 as int) =~= line.push(NEWLINE));
        assert(is_line_at(t, s.len() as int, line));
        assert forall|i: int| is_line_at(t, i, line) implies i == s.len() by {
            if i < s.len() {
                if i + line.len() + 1 <= s.len() {
                    assert(s.subrange(i, i + line.len() + 1) =~= t.subrange(i, i + line.len() + 1));
                    assert(is_line_at(s, i, line));
                } else {
                    let k = s.len() - 1 - i;
                    assert(t.subrange(i, i + line.len() + 1)[k] == s.last());
                    assert(line.push(NEWLINE)[k] == line[k]);
                    assert(line.contains(NEWLINE));
                }
            } else if i > s.len() {
                assert(t[i - 1] == line[i - 1 - s.len()]);
                assert(line.contains(NEWLINE));
            }
        }
    }
}

/// Appending to a file that does not exist yet creates it holding exactly the
/// line and its terminator.
pub proof fn append_to_missing_file(line: Seq<u8>)
    ensures
        after_append(Seq::empty(), line) == line.push(NEWLINE),
{
    assert(Seq::<u8>::empty() + line.push(NEWLINE) =~= line.push(NEWLINE));
}

} // verus!
