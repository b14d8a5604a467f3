//! Command extraction from an assistant reply.
//!
//! The reply is expected to carry one command inside a fenced code block,
//! optionally tagged `bash`. The leftmost block wins, its body runs up to the
//! first closing fence, and the extracted command is the first line of the
//! trimmed body; a reply with no fenced block yields the empty string.

use vstd::prelude::*;
use crate::textops::trim_of;
use crate::textops::trim_str;

verus! {

/// A fence (three backticks) stands at position `i`.
pub open spec fn fence_at(s: Seq<char>, i: int) -> bool {
    &&& 0 <= i
    &&& i + 3 <= s.len()
    &&& s[i] == '`'
    &&& s[i + 1] == '`'
    &&& s[i + 2] == '`'
}

/// A block opens at `i` and its body starts at `cs`: the fence, then either
/// the tag `bash` and a newline, or a bare newline.
pub open spec fn open_at(s: Seq<char>, i: int, cs: int) -> bool {
    &&& fence_at(s, i)
    &&& ((i + 8 <= s.len() && s[i + 3] == 'b' && s[i + 4] == 'a' && s[i + 5] == 's' && s[i + 6]
        == 'h' && s[i + 7] == '\n' && cs == i + 8) || (i + 4 <= s.len() && s[i + 3] == '\n' && cs
        == i + 4))
}

/// A whole fenced block: an opening at `i` with body start `cs`, closed by
/// the first fence at or after the body.
pub open spec fn block_shape(s: Seq<char>, i: int, cs: int, m: int) -> bool {
    &&& open_at(s, i, cs)
    &&& cs <= m
    &&& fence_at(s, m)
    &&& (forall|p: int| cs <= p < m ==> !fence_at(s, p))
}

/// A fenced block starts at position `i`.
pub open spec fn block_at(s: Seq<char>, i: int) -> bool {
    exists|cs: int, m: int| block_shape(s, i, cs, m)
}

/// Some fenced block occurs in the text.
pub open spec fn has_block(s: Seq<char>) -> bool {
    exists|i: int| block_at(s, i)
}

/// `i` is the leftmost position where a fenced block starts.
pub open spec fn is_first_block(s: Seq<char>, i: int) -> bool {
    &&& block_at(s, i)
    &&& (forall|i2: int| 0 <= i2 < i ==> !block_at(s, i2))
}

/// The body of the block at `i`: everything between the opening newline and
/// the closing fence.
pub open spec fn block_group(s: Seq<char>, i: int) -> Seq<char> {
    let (cs, m) = choose|cs: int, m: int| block_shape(s, i, cs, m);
    s.subrange(cs, m)
}

/// `e` is the position of the first newline in `t`.
pub open spec fn is_first_nl(t: Seq<char>, e: int) -> bool {
    &&& 0 <= e < t.len()
    &&& t[e] == '\n'
    &&& (forall|p: int| 0 <= p < e ==> t[p] != '\n')
}

/// The first line of a text: up to the first newline, with a carriage return
/// directly before it also dropped; the whole text when it has no newline.
pub open spec fn first_line(t: Seq<char>) -> Seq<char> {
    if exists|e: int| is_first_nl(t, e) {
        let e = choose|e: int| is_first_nl(t, e);
        if e > 0 && t[e - 1] == '\r' {
            t.subrange(0, e - 1)
        } else {
            t.subrange(0, e)
        }
    } else {
        t
    }
}

/// What extraction yields: the first line of the trimmed body of the leftmost
/// fenced block, or the empty string when no block occurs.
pub open spec fn block_extract(s: Seq<char>) -> Seq<char> {
    if exists|i: int| is_first_block(s, i) {
        let i = choose|i: int| is_first_block(s, i);
        first_line(trim_of(block_group(s, i)))
    } else {
        Seq::empty()
    }
}

/// At one start position the body bounds of a block are unique, so the body
/// is well defined.
pub proof fn lemma_block_unique(s: Seq<char>, i: int, cs1: int, m1: int, cs2: int, m2: int)
    requires
        block_shape(s, i, cs1, m1),
        block_shape(s, i, cs2, m2),
    ensures
        cs1 == cs2,
        m1 == m2,
{
    if cs1 != cs2 {
        assert(s[i + 3] == 'b' && s[i + 3] == '\n');
        assert(false);
    }
    if m1 < m2 {
        assert(fence_at(s, m1));
        assert(false);
    }
    if m2 < m1 {
        assert(fence_at(s, m2));
        assert(false);
    }
}

/// Does a fence stand at `i`?
fn is_fence(s: &str, i: usize, n: usize) -> (b: bool)
    requires
        n == s@.len(),
        i <= n,
    ensures
        b == fence_at(s@, i as int),
{
    if n - i < 3 {
        return false;
    }
    s.get_char(i) == '`' && s.get_char(i + 1) == '`' && s.get_char(i + 2) == '`'
}

/// Position of the first fence at or after `from`, if any.
fn find_fence(s: &str, from: usize, n: usize) -> (r: Option<usize>)
    requires
        n == s@.len(),
        from <= n,
    ensures
        match r {
            Some(m) => from <= m && fence_at(s@, m as int) && (forall|p: int|
                from <= p < m ==> !fence_at(s@, p)),
            None => forall|p: int| from <= p ==> !fence_at(s@, p),
        },
{
    let mut m: usize = from;
    while m < n
        invariant
            from <= m <= n,
            n == s@.len(),
            forall|p: int| from <= p < m ==> !fence_at(s@, p),
        decreases n - m,
    {
        if is_fence(s, m, n) {
            return Some(m);
        }
        m = m + 1;
    }
    proof {
        assert forall|p: int| from <= p implies !fence_at(s@, p) by {
            if p < n {
            } else {
                assert(!(p + 3 <= s@.len()));
            }
        }
    }
    None
}

/// Position of the first newline, if any.
fn find_nl(s: &str, n: usize) -> (r: Option<usize>)
    requires
        n == s@.len(),
    ensures
        match r {
            Some(e) => is_first_nl(s@, e as int),
            None => forall|p: int| 0 <= p < n ==> s@[p] != '\n',
        },
{
    let mut e: usize = 0;
    while e < n
        invariant
            e <= n,
            n == s@.len(),
            forall|p: int| 0 <= p < e ==> s@[p] != '\n',
        decreases n - e,
    {
        if s.get_char(e) == '\n' {
            return Some(e);
        }
        e = e + 1;
    }
    None
}

/// The first line of a text, as std's line iterator would hand it back.
fn first_line_of(t: &str) -> (r: String)
    ensures
        r@ == first_line(t@),
{
    let n = t.unicode_len();
    match find_nl(t, n) {
        None => {
            proof {
                assert forall|e: int| !is_first_nl(t@, e) by {
                    if is_first_nl(t@, e) {
                        assert(t@[e] != '\n');
                        assert(false);
                    }
                }
            }
            t.to_owned()
        },
        Some(e) => {
            proof {
                let e0 = choose|e0: int| is_first_nl(t@, e0);
                if e0 < e as int {
                    assert(t@[e0] != '\n');
                    assert(false);
                }
                if (e as int) < e0 {
                    assert(t@[e as int] != '\n');
                    assert(false);
                }
            }
            if e > 0 && t.get_char(e - 1) == '\r' {
                t.substring_char(0, e - 1).to_owned()
            } else {
                t.substring_char(0, e).to_owned()
            }
        },
    }
}

/// Decide whether a fenced block starts at `i`, and where its body runs.
fn check_block_at(s: &str, i: usize, n: usize) -> (r: Option<(usize, usize)>)
    requires
        n == s@.len(),
        i < n,
    ensures
        match r {
            Some(cm) => block_shape(s@, i as int, cm.0 as int, cm.1 as int),
            None => !block_at(s@, i as int),
        },
{
    if !is_fence(s, i, n) {
        proof {
            assert forall|cs: int, m: int| !block_shape(s@, i as int, cs, m) by {
                if block_shape(s@, i as int, cs, m) {
                    assert(false);
                }
            }
        }
        return None;
    }
    let cs: usize = if n - i >= 8 && s.get_char(i + 3) == 'b' && s.get_char(i + 4) == 'a'
        && s.get_char(i + 5) == 's' && s.get_char(i + 6) == 'h' && s.get_char(i + 7) == '\n' {
        i + 8
    } else if n - i >= 4 && s.get_char(i + 3) == '\n' {
        i + 4
    } else {
        proof {
            assert forall|cs2: int, m2: int| !block_shape(s@, i as int, cs2, m2) by {
                if block_shape(s@, i as int, cs2, m2) {
                    assert(false);
                }
            }
        }
        return None;
    };
    match find_fence(s, cs, n) {
        Some(m) => {
            proof {
                assert(block_shape(s@, i as int, cs as int, m as int));
            }
            Some((cs, m))
        },
        None => {
            proof {
                assert forall|cs2: int, m2: int| !block_shape(s@, i as int, cs2, m2) by {
                    if block_shape(s@, i as int, cs2, m2) {
                        assert(cs2 == cs as int);
                        assert(fence_at(s@, m2));
                        assert(false);
                    }
                }
            }
            None
        },
    }
}

/// Extract the suggested command from a reply: the first line of the trimmed
/// body of the leftmost fenced block, or the empty string without one.
pub fn extract_command(full: &str) -> (r: String)
    ensures
        r@ == block_extract(full@),
{
    let n = full.unicode_len();
    let mut i: usize = 0;
    while i < n
        invariant
            i <= n,
            n == full@.len(),
            forall|i2: int| 0 <= i2 < i ==> !block_at(full@, i2),
        decreases n - i,
    {
        match check_block_at(full, i, n) {
            Some((cs, m)) => {
                proof {
                    assert(block_at(full@, i as int));
                    assert(is_first_block(full@, i as int));
                    let i0 = choose|i0: int| is_first_block(full@, i0);
                    if i0 < i as int {
                        assert(!block_at(full@, i0));
                        assert(false);
                    }
                    if (i as int) < i0 {
                        assert(!block_at(full@, i as int));
                        assert(false);
                    }
                    let (cs0, m0) = choose|cs0: int, m0: int|
                        block_shape(full@, i as int, cs0, m0);
                    lemma_block_unique(full@, i as int, cs as int, m as int, cs0, m0);
                    assert(block_group(full@, i as int) == full@.subrange(cs as int, m as int));
                }
                let group = full.substring_char(cs, m);
                let trimmed = trim_str(group);
                return first_line_of(trimmed);
            },
            None => {},
        }
        i = i + 1;
    }
    proof {
        assert forall|i2: int| !block_at(full@, i2) by {
            if block_at(full@, i2) {
                let (cs0, m0) = choose|cs0: int, m0: int| block_shape(full@, i2, cs0, m0);
                assert(0 <= i2 < n);
                assert(false);
            }
        }
        assert forall|i2: int| !is_first_block(full@, i2) by {
            if is_first_block(full@, i2) {
                assert(block_at(full@, i2));
                assert(false);
            }
        }
    }
    String::new()
}

} // verus!
