//! Working-directory inference from raw shell output.
//!
//! A chunk that contains a prompt of the shape `root@host:path#` yields the
//! path between the first colon after the user part and the terminating
//! hash. The match is a best-effort heuristic over unstructured text: the
//! leftmost position where the whole shape fits wins, exactly as a scan of
//! the chunk finds it.

use vstd::prelude::*;
use crate::textops::trim_of;
use crate::textops::trim_str;

verus! {

/// The literal `root@` stands at position `i`.
pub open spec fn is_prompt_start(s: Seq<char>, i: int) -> bool {
    &&& 0 <= i
    &&& i + 5 <= s.len()
    &&& s[i] == 'r'
    &&& s[i + 1] == 'o'
    &&& s[i + 2] == 'o'
    &&& s[i + 3] == 't'
    &&& s[i + 4] == '@'
}

/// A full prompt match starting at `i`: `root@`, a nonempty host part up to
/// the first colon at `j`, then a nonempty path free of hashes and newlines
/// up to the terminating hash at `k`.
pub open spec fn prompt_shape(s: Seq<char>, i: int, j: int, k: int) -> bool {
    &&& is_prompt_start(s, i)
    &&& i + 5 < j < s.len()
    &&& s[j] == ':'
    &&& (forall|m: int| i + 5 <= m < j ==> s[m] != ':')
    &&& j + 1 < k < s.len()
    &&& s[k] == '#'
    &&& (forall|m: int| j + 1 <= m < k ==> s[m] != '#' && s[m] != '\n')
}

/// A prompt match starts at position `i`.
pub open spec fn match_at(s: Seq<char>, i: int) -> bool {
    exists|j: int, k: int| prompt_shape(s, i, j, k)
}

/// Some prompt match exists in the chunk.
pub open spec fn has_prompt(s: Seq<char>) -> bool {
    exists|i: int| match_at(s, i)
}

/// `i` is the leftmost position where a prompt match starts.
pub open spec fn is_first_match(s: Seq<char>, i: int) -> bool {
    &&& match_at(s, i)
    &&& (forall|i2: int| 0 <= i2 < i ==> !match_at(s, i2))
}

/// The path group of the match at `i`: the characters strictly between the
/// colon and the terminating hash.
pub open spec fn prompt_group(s: Seq<char>, i: int) -> Seq<char> {
    let (j, k) = choose|j: int, k: int| prompt_shape(s, i, j, k);
    s.subrange(j + 1, k)
}

/// The chunk holds the character `c` somewhere.
pub open spec fn contains_char(s: Seq<char>, c: char) -> bool {
    exists|i: int| 0 <= i < s.len() && s[i] == c
}

/// At one start position the colon and hash of a match are unique, so the
/// path group is well defined.
pub proof fn lemma_shape_unique(s: Seq<char>, i: int, j1: int, k1: int, j2: int, k2: int)
    requires
        prompt_shape(s, i, j1, k1),
        prompt_shape(s, i, j2, k2),
    ensures
        j1 == j2,
        k1 == k2,
{
    if j1 < j2 {
        assert(s[j1] == ':');
        assert(false);
    }
    if j2 < j1 {
        assert(s[j2] == ':');
        assert(false);
    }
    if k1 < k2 {
        assert(s[k1] == '#');
        assert(false);
    }
    if k2 < k1 {
        assert(s[k2] == '#');
        assert(false);
    }
}

/// Position of the first colon at or after `from`, if any.
fn find_colon(s: &str, from: usize, n: usize) -> (r: Option<usize>)
    requires
        n == s@.len(),
        from <= n,
    ensures
        match r {
            Some(j) => from <= j < n && s@[j as int] == ':' && (forall|m: int|
                from <= m < j ==> s@[m] != ':'),
            None => forall|m: int| from <= m < n ==> s@[m] != ':',
        },
{
    let mut p: usize = from;
    while p < n
        invariant
            from <= p <= n,
            n == s@.len(),
            forall|m: int| from <= m < p ==> s@[m] != ':',
        decreases n - p,
    {
        if s.get_char(p) == ':' {
            return Some(p);
        }
        p = p + 1;
    }
    None
}

/// Position of the first hash or newline at or after `from`, if any.
fn find_break(s: &str, from: usize, n: usize) -> (r: Option<usize>)
    requires
        n == s@.len(),
        from <= n,
    ensures
        match r {
            Some(k) => from <= k < n && (s@[k as int] == '#' || s@[k as int] == '\n') && (
            forall|m: int| from <= m < k ==> s@[m] != '#' && s@[m] != '\n'),
            None => forall|m: int| from <= m < n ==> s@[m] != '#' && s@[m] != '\n',
        },
{
    let mut p: usize = from;
    while p < n
        invariant
            from <= p <= n,
            n == s@.len(),
            forall|m: int| from <= m < p ==> s@[m] != '#' && s@[m] != '\n',
        decreases n - p,
    {
        let c = s.get_char(p);
        if c == '#' || c == '\n' {
            return Some(p);
        }
        p = p + 1;
    }
    None
}

/// Does the literal `root@` stand at position `i`?
fn starts_root(s: &str, i: usize, n: usize) -> (b: bool)
    requires
        n == s@.len(),
        i < n,
    ensures
        b == is_prompt_start(s@, i as int),
{
    if n - i < 5 {
        return false;
    }
    s.get_char(i) == 'r' && s.get_char(i + 1) == 'o' && s.get_char(i + 2) == 'o' && s.get_char(
        i + 3,
    ) == 't' && s.get_char(i + 4) == '@'
}

/// Decide whether a prompt match starts at `i`, and where its colon and
/// terminating hash stand.
fn check_match_at(s: &str, i: usize, n: usize) -> (r: Option<(usize, usize)>)
    requires
        n == s@.len(),
        i < n,
    ensures
        match r {
            Some(jk) => prompt_shape(s@, i as int, jk.0 as int, jk.1 as int),
            None => !match_at(s@, i as int),
        },
{
    if !starts_root(s, i, n) {
        proof {
            assert forall|j: int, k: int| !prompt_shape(s@, i as int, j, k) by {
                if prompt_shape(s@, i as int, j, k) {
                    assert(false);
                }
            }
        }
        return None;
    }
    let start: usize = i + 5;
    let j = match find_colon(s, start, n) {
        Some(j) => j,
        None => {
            proof {
                assert forall|j2: int, k2: int| !prompt_shape(s@, i as int, j2, k2) by {
                    if prompt_shape(s@, i as int, j2, k2) {
                        assert(s@[j2] == ':');
                        assert(false);
                    }
                }
            }
            return None;
        },
    };
    if j == start {
        proof {
            assert forall|j2: int, k2: int| !prompt_shape(s@, i as int, j2, k2) by {
                if prompt_shape(s@, i as int, j2, k2) {
                    assert(s@[start as int] != ':');
                    assert(false);
                }
            }
        }
        return None;
    }
    let k = match find_break(s, j + 1, n) {
        Some(k) => k,
        None => {
            proof {
                assert forall|j2: int, k2: int| !prompt_shape(s@, i as int, j2, k2) by {
                    if prompt_shape(s@, i as int, j2, k2) {
                        if j2 < j {
                            assert(s@[j2] == ':');
                            assert(false);
                        }
                        if j < j2 {
                            assert(s@[j as int] == ':');
                            assert(false);
                        }
                        assert(s@[k2] == '#');
                        assert(false);
                    }
                }
            }
            return None;
        },
    };
    if k > j + 1 && s.get_char(k) == '#' {
        proof {
            assert(prompt_shape(s@, i as int, j as int, k as int));
        }
        return Some((j, k));
    }
    proof {
        assert forall|j2: int, k2: int| !prompt_shape(s@, i as int, j2, k2) by {
            if prompt_shape(s@, i as int, j2, k2) {
                if j2 < j {
                    assert(s@[j2] == ':');
                    assert(false);
                }
                if j < j2 {
                    assert(s@[j as int] == ':');
                    assert(false);
                }
                if k == j + 1 {
                    assert(s@[k as int] != '#' && s@[k as int] != '\n');
                    assert(false);
                } else {
                    if k2 < k {
                        assert(s@[k2] == '#');
                        assert(false);
                    }
                    if k2 > k {
                        assert(s@[k as int] != '#' && s@[k as int] != '\n');
                        assert(false);
                    }
                    assert(false);
                }
            }
        }
    }
    None
}

/// Scan a chunk for the leftmost prompt match and hand back its trimmed path
/// group, or nothing when no prompt shape occurs in the chunk.
pub fn scan_prompt(chunk: &str) -> (r: Option<String>)
    ensures
        match r {
            Some(d) => exists|i: int|
                #[trigger] is_first_match(chunk@, i) && d@ == trim_of(prompt_group(chunk@, i)),
            None => !has_prompt(chunk@),
        },
{
    let n = chunk.unicode_len();
    let mut i: usize = 0;
    while i < n
        invariant
            i <= n,
            n == chunk@.len(),
            forall|i2: int| 0 <= i2 < i ==> !match_at(chunk@, i2),
        decreases n - i,
    {
        match check_match_at(chunk, i, n) {
            Some((j, k)) => {
                proof {
                    assert(match_at(chunk@, i as int));
                    let (j0, k0) = choose|j0: int, k0: int|
                        prompt_shape(chunk@, i as int, j0, k0);
                    lemma_shape_unique(chunk@, i as int, j as int, k as int, j0, k0);
                    assert(prompt_group(chunk@, i as int) == chunk@.subrange(
                        j as int + 1,
                        k as int,
                    ));
                    assert(is_first_match(chunk@, i as int));
                }
                let group = chunk.substring_char(j + 1, k);
                let trimmed = trim_str(group);
                return Some(trimmed.to_owned());
            },
            None => {},
        }
        i = i + 1;
    }
    proof {
        assert forall|i2: int| !match_at(chunk@, i2) by {
            if match_at(chunk@, i2) {
                let (j0, k0) = choose|j0: int, k0: int| prompt_shape(chunk@, i2, j0, k0);
                assert(0 <= i2 < n);
                assert(false);
            }
        }
    }
    None
}

/// Overwrite the working-directory fact when the chunk shows a prompt; leave
/// it untouched otherwise.
pub fn update_dir(fact: &mut String, chunk: &str)
    ensures
        has_prompt(chunk@) ==> exists|i: int|
            #[trigger] is_first_match(chunk@, i) && final(fact)@ == trim_of(
                prompt_group(chunk@, i),
            ),
        !has_prompt(chunk@) ==> final(fact)@ == old(fact)@,
{
    match scan_prompt(chunk) {
        Some(d) => {
            *fact = d;
        },
        None => {},
    }
}

/// Does the chunk hold the character `c` anywhere?
pub fn chunk_contains(chunk: &str, c: char) -> (b: bool)
    ensures
        b == contains_char(chunk@, c),
{
    let n = chunk.unicode_len();
    let mut p: usize = 0;
    while p < n
        invariant
            p <= n,
            n == chunk@.len(),
            forall|m: int| 0 <= m < p ==> chunk@[m] != c,
        decreases n - p,
    {
        if chunk.get_char(p) == c {
            return true;
        }
        p = p + 1;
    }
    false
}

} // verus!
