use vstd::prelude::*;
use crate::text::{chars_of, starts_with, trim, trimmed_range, VersionError};

verus! {

/// The key that opens a manifest's version line.
pub const VERSION_KEY: &'static str = "Implementation-Version:";

/// Index of the first line break at or after `i`, or the length of `t`.
pub open spec fn line_end(t: Seq<char>, i: int) -> int
    decreases t.len() - i,
{
    if i < 0 || i >= t.len() || t[i] == '\n' {
        i
    } else {
        line_end(t, i + 1)
    }
}

/// The version that the first line at or after `i` that begins with
/// `Implementation-Version:` gives: the rest of that line, trimmed. A line
/// starts at the beginning of the text and after each line break;
/// `at_line_start` says whether `i` is such a start.
pub open spec fn version_line_from(t: Seq<char>, i: int, at_line_start: bool) -> Option<Seq<char>>
    decreases t.len() - i,
{
    if i < 0 || i >= t.len() {
        None
    } else if at_line_start && starts_with(t.subrange(i, line_end(t, i)), VERSION_KEY@) {
        Some(trim(t.subrange(i + VERSION_KEY@.len(), line_end(t, i))))
    } else {
        version_line_from(t, i + 1, t[i] == '\n')
    }
}

/// The version that a manifest text declares, if it has a version line.
pub open spec fn manifest_version(t: Seq<char>) -> Option<Seq<char>> {
    version_line_from(t, 0, true)
}

proof fn lemma_line_end(t: Seq<char>, i: int)
    requires
        0 <= i <= t.len(),
    ensures
        i <= line_end(t, i) <= t.len(),
        line_end(t, i) == t.len() || t[line_end(t, i)] == '\n',
        forall|j: int| i <= j < line_end(t, i) ==> t[j] != '\n',
    decreases t.len() - i,
{
    if i < t.len() && t[i] != '\n' {
        lemma_line_end(t, i + 1);
    }
}

proof fn lemma_line_end_skip(t: Seq<char>, i: int, j: int)
    requires
        0 <= i <= j <= t.len(),
        forall|k: int| i <= k < j ==> t[k] != '\n',
    ensures
        line_end(t, i) == line_end(t, j),
    decreases j - i,
{
    if i < j {
        lemma_line_end_skip(t, i + 1, j);
    }
}

/// Whether `t` holds the version key at `i`.
fn key_at(t: &Vec<char>, key: &Vec<char>, i: usize) -> (r: bool)
    requires
        key@ == VERSION_KEY@,
        i <= t@.len(),
    ensures
        r == (i + VERSION_KEY@.len() <= t@.len() && t@.subrange(i as int, i + VERSION_KEY@.len())
            == VERSION_KEY@),
{
    let k = key.len();
    if k > t.len() - i {
        return false;
    }
    let mut j: usize = 0;
    while j < k
        invariant
            key@ == VERSION_KEY@,
            k == key@.len(),
            i + k <= t.len(),
            j <= k,
            forall|m: int| 0 <= m < j ==> t@[i + m] == key@[m],
        decreases k - j,
    {
        if t[i + j] != key[j] {
            assert(t@.subrange(i as int, i + k)[j as int] != key@[j as int]);
            return false;
        }
        j = j + 1;
    }
    assert(t@.subrange(i as int, i + k) =~= key@);
    true
}

/// Reads the version from a manifest text: the first line that begins with
/// `Implementation-Version:`, without that key and trimmed.
pub fn extract_manifest_version(text: &str) -> (r: Result<String, VersionError>)
    ensures
        match manifest_version(text@) {
            Some(v) => r matches Ok(s) && s@ == v,
            None => r == Err::<String, VersionError>(VersionError::PatternNotFound),
        },
{
    proof {
        reveal_strlit("Implementation-Version:");
    }
    let ghost t = text@;
    let ghost key = VERSION_KEY@;
    assert(forall|m: int| 0 <= m < key.len() ==> key[m] != '\n');
    let chars = chars_of(text);
    let key_chars = chars_of(VERSION_KEY);
    let n = chars.len();
    let k = key_chars.len();
    let mut i: usize = 0;
    let mut at_start = true;
    while i < n
        invariant
            n == t.len(),
            k == key.len(),
            t == text@,
            chars@ == t,
            key == VERSION_KEY@,
            key_chars@ == key,
            forall|m: int| 0 <= m < key.len() ==> key[m] != '\n',
            i <= n,
            manifest_version(t) == version_line_from(t, i as int, at_start),
        decreases n - i,
    {
        proof {
            lemma_line_end(t, i as int);
        }
        let found = at_start && key_at(&chars, &key_chars, i);
        if found {
            proof {
                assert forall|m: int| i <= m < i + k implies t[m] != '\n' by {
                    assert(t[m] == t.subrange(i as int, i + k)[m - i]);
                }
                lemma_line_end_skip(t, i as int, i + k);
                lemma_line_end(t, i + k);
                assert(t.subrange(i as int, line_end(t, i as int)).subrange(0, k as int)
                    =~= t.subrange(i as int, i + k));
            }
            let mut e = i + k;
            while e < n && chars[e] != '\n'
                invariant
                    i + k <= e <= n,
                    n == t.len(),
                    chars@ == t,
                    line_end(t, e as int) == line_end(t, i as int),
                decreases n - e,
            {
                e = e + 1;
            }
            return Ok(trimmed_range(text, &chars, i + k, e));
        }
        if at_start {
            let ghost e = line_end(t, i as int);
            assert(!starts_with(t.subrange(i as int, e), key)) by {
                if starts_with(t.subrange(i as int, e), key) {
                    assert(t.subrange(i as int, e).subrange(0, k as int)
                        =~= t.subrange(i as int, i + k));
                }
            }
        }
        at_start = chars[i] == '\n';
        i = i + 1;
    }
    Err(VersionError::PatternNotFound)
}

} // verus!
