//! Small operations on text that the rest of the library shares.

use crate::numeric::chars_of;
use vstd::prelude::*;

verus! {

/// Whether `text` begins with `prefix`.
pub fn begins_with(text: &str, prefix: &str) -> (r: bool)
    ensures
        r == prefix@.is_prefix_of(text@),
{
    let t = chars_of(text);
    let p = chars_of(prefix);
    if p.len() > t.len() {
        return false;
    }
    let mut i: usize = 0;
    while i < p.len()
        invariant
            t@ == text@,
            p@ == prefix@,
            i <= p.len() <= t.len(),
            forall|k: int| 0 <= k < i ==> p@[k] == t@[k],
        decreases p.len() - i,
    {
        if p[i] != t[i] {
            proof {
                if p@.is_prefix_of(t@) {
                    assert(t@.subrange(0, p@.len() as int)[i as int] == p@[i as int]);
                }
            }
            return false;
        }
        i += 1;
    }
    proof {
        assert(t@.subrange(0, p@.len() as int) =~= p@);
    }
    true
}

/// Whether the two texts are the same.
pub fn same_text(a: &str, b: &str) -> (same: bool)
    ensures
        same == (a@ == b@),
{
    let x = chars_of(a);
    let y = chars_of(b);
    if x.len() != y.len() {
        return false;
    }
    let mut i: usize = 0;
    while i < x.len()
        invariant
            x@ == a@,
            y@ == b@,
            i <= x.len() == y.len(),
            forall|k: int| 0 <= k < i ==> x@[k] == y@[k],
        decreases x.len() - i,
    {
        if x[i] != y[i] {
            return false;
        }
        i += 1;
    }
    proof {
        assert(x@ =~= y@);
    }
    true
}

/// What follows the last `mark` in `s`: all of `s` where it holds no
/// `mark`, nothing where it ends in one.
pub open spec fn after_last(s: Seq<char>, mark: char) -> Seq<char>
    decreases s.len(),
{
    if s.len() == 0 {
        s
    } else if s.last() == mark {
        Seq::empty()
    } else {
        after_last(s.drop_last(), mark).push(s.last())
    }
}

/// What `after_last` gives is the end of the text, holds no mark, and
/// begins at the start of the text or right behind a mark.
pub proof fn lemma_after_last(s: Seq<char>, mark: char)
    ensures
        after_last(s, mark).len() <= s.len(),
        after_last(s, mark) == s.skip(s.len() - after_last(s, mark).len()),
        !after_last(s, mark).contains(mark),
        after_last(s, mark).len() < s.len() ==> s[s.len() - after_last(s, mark).len() - 1] == mark,
    decreases s.len(),
{
    if s.len() > 0 && s.last() != mark {
        let shorter = s.drop_last();
        let tail = after_last(shorter, mark);
        lemma_after_last(shorter, mark);
        let whole = tail.push(s.last());
        assert(whole =~= s.skip(s.len() - whole.len())) by {
            assert forall|i: int| 0 <= i < whole.len() implies whole[i] == s.skip(
                s.len() - whole.len(),
            )[i] by {
                if i < tail.len() {
                    assert(tail[i] == shorter.skip(shorter.len() - tail.len())[i]);
                }
            }
        }
        assert(!whole.contains(mark)) by {
            if whole.contains(mark) {
                let i = choose|i: int| 0 <= i < whole.len() && whole[i] == mark;
                if i < tail.len() {
                    assert(tail[i] == mark);
                    assert(tail.contains(mark));
                }
            }
        }
    } else if s.len() > 0 {
        assert(s.skip(s.len() as int) =~= Seq::<char>::empty());
        assert(!Seq::<char>::empty().contains(mark));
    } else {
        assert(s.skip(0) =~= s);
        assert(!s.contains(mark));
    }
}

/// The part of `text` that follows its last `mark`.
pub fn last_part(text: &str, mark: char) -> (part: String)
    ensures
        part@ == after_last(text@, mark),
{
    let mut part = String::new();
    proof {
        assert(text@.take(0) =~= Seq::<char>::empty());
    }
    for c in it: text.chars()
        invariant
            it.seq() == text@,
            part@ == after_last(text@.take(it.index() as int), mark),
    {
        proof {
            let i = it.index() as int;
            assert(text@.take(i + 1).drop_last() =~= text@.take(i));
            assert(text@.take(i + 1).last() == c);
        }
        if c == mark {
            part = String::new();
        } else {
            part.push(c);
        }
    }
    proof {
        assert(text@.take(text@.len() as int) =~= text@);
    }
    part
}

} // verus!
