//! Verified text searching: first occurrence of a pattern in a string, and
//! the key extraction built on it. The CurseForge desktop bundle holds its
//! API key as `cfCoreApiKey":"<key>"`; [`read_key_from_str`] finds the
//! first such marker and hands back what stands before the next quote,
//! exactly as [`spec_extract_key`] states.

use vstd::prelude::*;
use vstd::string::StrSliceExecFns;

verus! {

/// The position of the first occurrence of `pat` in `s` at or after `i`,
/// if there is one. An empty pattern is never found.
pub open spec fn find_from(s: Seq<char>, pat: Seq<char>, i: int) -> Option<int>
    decreases s.len() - i,
{
    if pat.len() <= 0 || i + pat.len() > s.len() {
        None
    } else if s.subrange(i, i + pat.len()) == pat {
        Some(i)
    } else {
        find_from(s, pat, i + 1)
    }
}

/// What a find gives back: a position no earlier than the start, where the
/// pattern stands in full.
pub proof fn lemma_find_from_found(s: Seq<char>, pat: Seq<char>, start: int, j: int)
    requires
        find_from(s, pat, start) == Some(j),
    ensures
        start <= j,
        j + pat.len() <= s.len(),
        s.subrange(j, j + pat.len()) == pat,
    decreases s.len() - start,
{
    if !(pat.len() <= 0 || start + pat.len() > s.len())
        && s.subrange(start, start + pat.len()) != pat {
        lemma_find_from_found(s, pat, start + 1, j);
    }
}

/// The marker the key stands behind in the desktop bundle.
pub open spec fn key_marker() -> Seq<char> {
    "cfCoreApiKey\":\""@
}

/// The quote that ends the key.
pub open spec fn quote_mark() -> Seq<char> {
    "\""@
}

/// The key inside a desktop bundle text: what stands between the first
/// `cfCoreApiKey":"` marker and the next quote after it, if both exist.
pub open spec fn spec_extract_key(s: Seq<char>) -> Option<Seq<char>> {
    match find_from(s, key_marker(), 0) {
        None => None,
        Some(i) => match find_from(s, quote_mark(), i + key_marker().len()) {
            None => None,
            Some(j) => Some(s.subrange(i + key_marker().len(), j)),
        },
    }
}

/// Finds the first occurrence of `needle` in `hay` at or after `start`,
/// exactly as [`find_from`] says.
pub fn find_pattern_from(hay: &str, needle: &str, start: usize) -> (r: Option<usize>)
    ensures
        match find_from(hay@, needle@, start as int) {
            Some(i) => r matches Some(u) && u as int == i,
            None => r is None,
        },
{
    let n = hay.unicode_len();
    let m = needle.unicode_len();
    if m == 0 || m > n || start > n - m {
        proof {
            lemma_find_none_past_end(hay@, needle@, start as int);
        }
        return None;
    }
    let mut i = start;
    while i <= n - m
        invariant
            start <= i <= n - m + 1,
            0 < m <= n,
            n == hay@.len(),
            m == needle@.len(),
            find_from(hay@, needle@, start as int) == find_from(hay@, needle@, i as int),
        decreases n - i,
    {
        let mut j: usize = 0;
        let mut matched = true;
        while matched && j < m
            invariant
                j <= m,
                i + m <= n,
                n == hay@.len(),
                m == needle@.len(),
                matched ==> forall|l: int| 0 <= l < j ==> hay@[i + l] == needle@[l],
                !matched ==> hay@.subrange(i as int, i + m) != needle@,
            decreases m - j + (if matched { 1int } else { 0int }),
        {
            if hay.get_char(i + j) != needle.get_char(j) {
                proof {
                    assert(hay@.subrange(i as int, i + m)[j as int] == hay@[i + j]);
                }
                matched = false;
            } else {
                j = j + 1;
            }
        }
        if matched {
            proof {
                assert(j == m);
                assert(hay@.subrange(i as int, i + m) =~= needle@);
            }
            return Some(i);
        }
        i = i + 1;
    }
    proof {
        lemma_find_none_past_end(hay@, needle@, i as int);
    }
    None
}

/// Past the last position where the pattern still fits, nothing is found.
proof fn lemma_find_none_past_end(s: Seq<char>, pat: Seq<char>, i: int)
    requires
        pat.len() <= 0 || i + pat.len() > s.len(),
    ensures
        find_from(s, pat, i) is None,
{
}

/// What stands after the last `/` of a text; the whole text when it has
/// none. For a download URL this is the file's name.
pub open spec fn after_last_slash(s: Seq<char>) -> Seq<char>
    decreases s.len(),
{
    if s.len() == 0 {
        s
    } else if s.last() == '/' {
        Seq::empty()
    } else {
        after_last_slash(s.drop_last()) + seq![s.last()]
    }
}

/// Behind the last slash, the suffix is what the text ends with.
proof fn lemma_after_last_slash_suffix(s: Seq<char>, j: int)
    requires
        0 <= j < s.len(),
        s[j] == '/',
        forall|l: int| j < l < s.len() ==> s[l] != '/',
    ensures
        after_last_slash(s) == s.subrange(j + 1, s.len() as int),
    decreases s.len(),
{
    if j == s.len() - 1 {
        assert(s.subrange(j + 1, s.len() as int) =~= Seq::empty());
    } else {
        lemma_after_last_slash_suffix(s.drop_last(), j);
        assert(after_last_slash(s.drop_last()) + seq![s.last()] =~= s.subrange(
            j + 1,
            s.len() as int,
        ));
    }
}

/// Without a slash anywhere, the whole text stands.
proof fn lemma_after_last_slash_whole(s: Seq<char>)
    requires
        forall|l: int| 0 <= l < s.len() ==> s[l] != '/',
    ensures
        after_last_slash(s) == s,
    decreases s.len(),
{
    if s.len() > 0 {
        lemma_after_last_slash_whole(s.drop_last());
        assert(after_last_slash(s.drop_last()) + seq![s.last()] =~= s);
    }
}

/// The file name a download URL ends in: everything after its last slash,
/// exactly as [`after_last_slash`] says.
pub fn url_file_name(url: &str) -> (r: String)
    ensures
        r@ == after_last_slash(url@),
{
    let n = url.unicode_len();
    let mut k = n;
    while k > 0
        invariant
            k <= n,
            n == url@.len(),
            forall|l: int| k <= l < n ==> url@[l] != '/',
        decreases k,
    {
        if url.get_char(k - 1) == '/' {
            proof {
                lemma_after_last_slash_suffix(url@, k - 1);
            }
            return url.substring_char(k, n).to_owned();
        }
        k = k - 1;
    }
    proof {
        lemma_after_last_slash_whole(url@);
        assert(url@.subrange(0, n as int) =~= url@);
    }
    url.substring_char(0, n).to_owned()
}

/// Extracts the API key from the desktop bundle's text: the characters
/// between the first `cfCoreApiKey":"` and the quote that follows, or the
/// message the program prints when the marker is gone.
pub fn read_key_from_str(key_file: &str) -> (r: Result<String, String>)
    ensures
        match spec_extract_key(key_file@) {
            Some(k) => r matches Ok(key) && key@ == k,
            None => r matches Err(e) && e@ == "Key not found in file -- likely changed."@,
        },
{
    let marker = "cfCoreApiKey\":\"";
    let i = match find_pattern_from(key_file, marker, 0) {
        Some(i) => i,
        None => {
            return Err("Key not found in file -- likely changed.".to_owned());
        },
    };
    proof {
        lemma_find_from_found(key_file@, marker@, 0, i as int);
    }
    let n = key_file.unicode_len();
    let m = marker.unicode_len();
    let key_start = i + m;
    let j = match find_pattern_from(key_file, "\"", key_start) {
        Some(j) => j,
        None => {
            return Err("Key not found in file -- likely changed.".to_owned());
        },
    };
    proof {
        lemma_find_from_found(key_file@, "\""@, key_start as int, j as int);
    }
    Ok(key_file.substring_char(key_start, j).to_owned())
}

} // verus!
