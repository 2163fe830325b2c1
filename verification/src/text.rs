//! Verified text utilities of the engine: whitespace trimming, stripping of
//! the trailing end-of-turn marker from generated output, substring search,
//! and the derivation of a model display name from an artifact path.

use vstd::prelude::*;

verus! {

/// A whitespace character, following the Unicode `White_Space` property
/// (the set `str::trim` removes).
pub open spec fn spec_is_whitespace(c: char) -> bool {
    ||| c == '\u{0009}'
    ||| c == '\u{000A}'
    ||| c == '\u{000B}'
    ||| c == '\u{000C}'
    ||| c == '\u{000D}'
    ||| c == '\u{0020}'
    ||| c == '\u{0085}'
    ||| c == '\u{00A0}'
    ||| c == '\u{1680}'
    ||| c == '\u{2000}'
    ||| c == '\u{2001}'
    ||| c == '\u{2002}'
    ||| c == '\u{2003}'
    ||| c == '\u{2004}'
    ||| c == '\u{2005}'
    ||| c == '\u{2006}'
    ||| c == '\u{2007}'
    ||| c == '\u{2008}'
    ||| c == '\u{2009}'
    ||| c == '\u{200A}'
    ||| c == '\u{2028}'
    ||| c == '\u{2029}'
    ||| c == '\u{202F}'
    ||| c == '\u{205F}'
    ||| c == '\u{3000}'
}

fn is_whitespace_char(c: char) -> (b: bool)
    ensures
        b == spec_is_whitespace(c),
{
    c == '\u{0009}' || c == '\u{000A}' || c == '\u{000B}' || c == '\u{000C}' || c == '\u{000D}'
        || c == '\u{0020}' || c == '\u{0085}' || c == '\u{00A0}' || c == '\u{1680}' || c
        == '\u{2000}' || c == '\u{2001}' || c == '\u{2002}' || c == '\u{2003}' || c == '\u{2004}'
        || c == '\u{2005}' || c == '\u{2006}' || c == '\u{2007}' || c == '\u{2008}' || c
        == '\u{2009}' || c == '\u{200A}' || c == '\u{2028}' || c == '\u{2029}' || c == '\u{202F}'
        || c == '\u{205F}' || c == '\u{3000}'
}

/// The sequence with leading whitespace removed.
pub open spec fn spec_trim_start(s: Seq<char>) -> Seq<char>
    decreases s.len(),
{
    if s.len() == 0 {
        s
    } else if spec_is_whitespace(s[0]) {
        spec_trim_start(s.drop_first())
    } else {
        s
    }
}

/// The sequence with trailing whitespace removed.
pub open spec fn spec_trim_end(s: Seq<char>) -> Seq<char>
    decreases s.len(),
{
    if s.len() == 0 {
        s
    } else if spec_is_whitespace(s.last()) {
        spec_trim_end(s.drop_last())
    } else {
        s
    }
}

/// The sequence with leading and trailing whitespace removed.
pub open spec fn spec_trim(s: Seq<char>) -> Seq<char> {
    spec_trim_end(spec_trim_start(s))
}

proof fn lemma_trim_start_reaches(s: Seq<char>, k: int)
    requires
        0 <= k <= s.len(),
        forall|j: int| 0 <= j < k ==> spec_is_whitespace(s[j]),
    ensures
        spec_trim_start(s) == spec_trim_start(s.skip(k)),
    decreases k,
{
    if k > 0 {
        assert(spec_trim_start(s) == spec_trim_start(s.drop_first()));
        assert(s.drop_first() =~= s.skip(1));
        lemma_trim_start_reaches(s.skip(1), k - 1);
        assert(s.skip(1).skip(k - 1) =~= s.skip(k));
    } else {
        assert(s.skip(0) =~= s);
    }
}

/// Removes leading and trailing whitespace.
pub fn trim_string(s: &String) -> (r: String)
    ensures
        r@ == spec_trim(s@),
{
    let n = s.as_str().unicode_len();
    let mut start: usize = 0;
    while start < n && is_whitespace_char(s.as_str().get_char(start))
        invariant
            n == s@.len(),
            start <= n,
            forall|j: int| 0 <= j < start ==> spec_is_whitespace(s@[j]),
        decreases n - start,
    {
        start += 1;
    }
    proof {
        lemma_trim_start_reaches(s@, start as int);
        if start < n {
            assert(s@.skip(start as int)[0] == s@[start as int]);
            assert(spec_trim_start(s@.skip(start as int)) == s@.skip(start as int));
        } else {
            assert(s@.skip(start as int) =~= Seq::<char>::empty());
        }
        assert(spec_trim_start(s@) == s@.skip(start as int));
    }
    // Now remove trailing whitespace from the suffix that starts at `start`.
    let mut end: usize = n;
    while end > start && is_whitespace_char(s.as_str().get_char(end - 1))
        invariant
            n == s@.len(),
            start <= end <= n,
            spec_trim_end(s@.skip(start as int)) == spec_trim_end(
                s@.subrange(start as int, end as int),
            ),
        decreases end,
    {
        proof {
            let sub = s@.subrange(start as int, end as int);
            assert(sub.last() == s@[end - 1]);
            assert(sub.drop_last() =~= s@.subrange(start as int, end - 1));
        }
        end -= 1;
    }
    proof {
        assert(s@.subrange(start as int, n as int) =~= s@.skip(start as int));
        let sub = s@.subrange(start as int, end as int);
        if end > start {
            assert(sub.last() == s@[end - 1]);
            assert(spec_trim_end(sub) == sub);
        } else {
            assert(sub =~= Seq::<char>::empty());
        }
        assert(spec_trim(s@) == s@.subrange(start as int, end as int));
    }
    let out = s.as_str().substring_char(start, end);
    String::from_str(out)
}

/// The end-of-turn marker the model emits to close an assistant turn.
pub open spec fn spec_marker() -> Seq<char> {
    "<|im_end|>"@
}

/// Whether the text ends with the end-of-turn marker.
pub open spec fn spec_ends_with_marker(s: Seq<char>) -> bool {
    s.len() >= 10 && s.subrange(s.len() - 10, s.len() as int) == spec_marker()
}

/// The text with every trailing end-of-turn marker removed.
pub open spec fn spec_strip_markers(s: Seq<char>) -> Seq<char>
    decreases s.len(),
{
    if spec_ends_with_marker(s) {
        spec_strip_markers(s.take(s.len() - 10))
    } else {
        s
    }
}

fn ends_with_marker(s: &String) -> (b: bool)
    ensures
        b == spec_ends_with_marker(s@),
{
    proof {
        reveal_strlit("<|im_end|>");
    }
    let n = s.as_str().unicode_len();
    if n < 10 {
        return false;
    }
    let st = s.as_str();
    let b = st.get_char(n - 10) == '<' && st.get_char(n - 9) == '|' && st.get_char(n - 8) == 'i'
        && st.get_char(n - 7) == 'm' && st.get_char(n - 6) == '_' && st.get_char(n - 5) == 'e'
        && st.get_char(n - 4) == 'n' && st.get_char(n - 3) == 'd' && st.get_char(n - 2) == '|'
        && st.get_char(n - 1) == '>';
    proof {
        let sub = s@.subrange(n - 10, n as int);
        assert(spec_marker().len() == 10);
        assert(spec_marker()[0] == '<');
        assert(spec_marker()[1] == '|');
        assert(spec_marker()[2] == 'i');
        assert(spec_marker()[3] == 'm');
        assert(spec_marker()[4] == '_');
        assert(spec_marker()[5] == 'e');
        assert(spec_marker()[6] == 'n');
        assert(spec_marker()[7] == 'd');
        assert(spec_marker()[8] == '|');
        assert(spec_marker()[9] == '>');
        if b {
            assert(sub =~= spec_marker());
        } else {
            if spec_ends_with_marker(s@) {
                assert(sub == spec_marker());
                assert(s@[n - 10] == sub[0]);
                assert(s@[n - 9] == sub[1]);
                assert(s@[n - 8] == sub[2]);
                assert(s@[n - 7] == sub[3]);
                assert(s@[n - 6] == sub[4]);
                assert(s@[n - 5] == sub[5]);
                assert(s@[n - 4] == sub[6]);
                assert(s@[n - 3] == sub[7]);
                assert(s@[n - 2] == sub[8]);
                assert(s@[n - 1] == sub[9]);
                assert(false);
            }
        }
    }
    b
}

/// Removes every trailing end-of-turn marker.
pub fn strip_end_markers(s: String) -> (r: String)
    ensures
        r@ == spec_strip_markers(s@),
{
    let ghost orig = s@;
    let mut cur = s;
    while ends_with_marker(&cur)
        invariant
            spec_strip_markers(orig) == spec_strip_markers(cur@),
        decreases cur@.len(),
    {
        let n = cur.as_str().unicode_len();
        let shorter = String::from_str(cur.as_str().substring_char(0, n - 10));
        proof {
            assert(shorter@ =~= cur@.take(cur@.len() - 10));
        }
        cur = shorter;
    }
    cur
}

/// The final content of a response: the raw output buffer trimmed, with a
/// trailing end-of-turn marker stripped, and trimmed again.
pub open spec fn spec_finalize(s: Seq<char>) -> Seq<char> {
    spec_trim(spec_strip_markers(spec_trim(s)))
}

/// Cleans a raw output buffer into the final response content: trims
/// whitespace, strips the trailing end-of-turn marker, and re-trims.
pub fn finalize_content(raw: &String) -> (r: String)
    ensures
        r@ == spec_finalize(raw@),
{
    let trimmed = trim_string(raw);
    let stripped = strip_end_markers(trimmed);
    trim_string(&stripped)
}

/// Whether `n` occurs as a contiguous subsequence of `h`.
pub open spec fn spec_contains(h: Seq<char>, n: Seq<char>) -> bool {
    exists|i: int| 0 <= i && i + n.len() <= h.len() && #[trigger] h.subrange(i, i + n.len()) == n
}

/// Substring search.
pub fn contains_substring(hay: &str, needle: &str) -> (b: bool)
    ensures
        b == spec_contains(hay@, needle@),
{
    let hn = hay.unicode_len();
    let nn = needle.unicode_len();
    if nn > hn {
        proof {
            if spec_contains(hay@, needle@) {
                let w = choose|w: int|
                    0 <= w && w + needle@.len() <= hay@.len() && #[trigger] hay@.subrange(
                        w,
                        w + needle@.len(),
                    ) == needle@;
                assert(false);
            }
        }
        return false;
    }
    if nn == 0 {
        proof {
            assert(hay@.subrange(0, 0 + needle@.len() as int) =~= needle@);
        }
        return true;
    }
    let mut i: usize = 0;
    while i <= hn - nn
        invariant
            hn == hay@.len(),
            nn == needle@.len(),
            0 < nn <= hn,
            i <= hn - nn + 1,
            forall|k: int|
                0 <= k < i ==> #[trigger] hay@.subrange(k, k + needle@.len()) != needle@,
        decreases hn - i,
    {
        let mut j: usize = 0;
        let mut matches = true;
        while j < nn
            invariant
                hn == hay@.len(),
                nn == needle@.len(),
                0 < nn <= hn,
                i + nn <= hn,
                j <= nn,
                matches ==> forall|l: int| 0 <= l < j ==> hay@[i + l] == needle@[l],
                !matches ==> hay@.subrange(i as int, i + needle@.len()) != needle@,
            decreases nn - j,
        {
            if hay.get_char(i + j) != needle.get_char(j) {
                proof {
                    let sub = hay@.subrange(i as int, i + needle@.len());
                    assert(sub[j as int] == hay@[i + j]);
                }
                matches = false;
                j = nn;
            } else {
                j += 1;
            }
        }
        if matches {
            proof {
                assert(hay@.subrange(i as int, i + needle@.len()) =~= needle@);
            }
            return true;
        }
        i += 1;
    }
    proof {
        if spec_contains(hay@, needle@) {
            let w = choose|w: int|
                0 <= w && w + needle@.len() <= hay@.len() && #[trigger] hay@.subrange(
                    w,
                    w + needle@.len(),
                ) == needle@;
            assert(w < i);
            assert(false);
        }
    }
    false
}

/// Classifies the diagnostic text of a failed database unlock: a cipher
/// error means the passphrase was wrong; anything else is reported as a
/// database error with the diagnostic attached.
pub fn classify_unlock_error(stderr: &String) -> (r: String)
    ensures
        (spec_contains(stderr@, "Unsupported state"@) || spec_contains(stderr@, "bad decrypt"@))
            ==> r@ == "Incorrect passphrase"@,
        !(spec_contains(stderr@, "Unsupported state"@) || spec_contains(stderr@, "bad decrypt"@))
            ==> r@ == "Database error: "@ + stderr@,
{
    if contains_substring(stderr.as_str(), "Unsupported state") || contains_substring(
        stderr.as_str(),
        "bad decrypt",
    ) {
        String::from_str("Incorrect passphrase")
    } else {
        let mut r = String::from_str("Database error: ");
        r.append(stderr.as_str());
        r
    }
}

/// View of a sequence of strings.
pub open spec fn spec_strs(items: Seq<String>) -> Seq<Seq<char>> {
    items.map(|i: int, s: String| s@)
}

/// The items joined with a comma between neighbours.
pub open spec fn spec_join_comma(items: Seq<Seq<char>>) -> Seq<char>
    decreases items.len(),
{
    if items.len() == 0 {
        Seq::empty()
    } else if items.len() == 1 {
        items[0]
    } else {
        spec_join_comma(items.drop_last()) + ","@ + items.last()
    }
}

/// Joins strings with commas, as a comma-separated filter list is passed
/// on a bridge command line.
pub fn join_comma(items: &Vec<String>) -> (r: String)
    ensures
        r@ == spec_join_comma(spec_strs(items@)),
{
    let mut r = String::new();
    let mut i: usize = 0;
    while i < items.len()
        invariant
            i <= items@.len(),
            r@ == spec_join_comma(spec_strs(items@).take(i as int)),
        decreases items@.len() - i,
    {
        if i > 0 {
            r.append(",");
        }
        r.append(items[i].as_str());
        proof {
            let pre = spec_strs(items@).take(i as int);
            let cur = spec_strs(items@).take(i + 1);
            assert(cur.drop_last() =~= pre);
            assert(cur.last() == items@[i as int]@);
            if i > 0 {
                assert(r@ =~= spec_join_comma(cur));
            } else {
                assert(r@ =~= spec_join_comma(cur));
            }
        }
        i += 1;
    }
    proof {
        assert(spec_strs(items@).take(items@.len() as int) =~= spec_strs(items@));
    }
    r
}

/// The largest index at which `c` occurs in `s`, or `-1` if it does not.
pub open spec fn spec_last_index_of(s: Seq<char>, c: char) -> int
    decreases s.len(),
{
    if s.len() == 0 {
        -1
    } else if s.last() == c {
        s.len() - 1
    } else {
        spec_last_index_of(s.drop_last(), c)
    }
}

proof fn lemma_last_index_found(s: Seq<char>, c: char, i: int)
    requires
        0 <= i < s.len(),
        s[i] == c,
        forall|j: int| i < j < s.len() ==> s[j] != c,
    ensures
        spec_last_index_of(s, c) == i,
    decreases s.len(),
{
    if i == s.len() - 1 {
    } else {
        assert(s.last() != c);
        assert(s.drop_last()[i] == c);
        lemma_last_index_found(s.drop_last(), c, i);
    }
}

proof fn lemma_last_index_none(s: Seq<char>, c: char)
    requires
        forall|j: int| 0 <= j < s.len() ==> s[j] != c,
    ensures
        spec_last_index_of(s, c) == -1,
    decreases s.len(),
{
    if s.len() > 0 {
        lemma_last_index_none(s.drop_last(), c);
    }
}

/// The largest index at which `c` occurs, as an exec scan from the end.
fn last_index_of(s: &str, c: char) -> (r: Option<usize>)
    ensures
        match r {
            Some(i) => i < s@.len() && spec_last_index_of(s@, c) == i,
            None => spec_last_index_of(s@, c) == -1,
        },
{
    let n = s.unicode_len();
    let mut i: usize = n;
    while i > 0
        invariant
            n == s@.len(),
            i <= n,
            forall|j: int| i <= j < n ==> s@[j] != c,
        decreases i,
    {
        if s.get_char(i - 1) == c {
            proof {
                lemma_last_index_found(s@, c, i - 1);
            }
            return Some(i - 1);
        }
        i -= 1;
    }
    proof {
        lemma_last_index_none(s@, c);
    }
    None
}

/// The display name derived from a model artifact path: the component
/// after the last path separator, with an extension after a non-leading
/// final dot removed; an empty base name falls back to `unknown`.
pub open spec fn spec_model_name(p: Seq<char>) -> Seq<char> {
    let base = p.skip(spec_last_index_of(p, '/') + 1);
    if base.len() == 0 {
        "unknown"@
    } else {
        let d = spec_last_index_of(base, '.');
        if d > 0 {
            base.take(d)
        } else {
            base
        }
    }
}

/// Derives a human-readable model display name from the artifact path's
/// base name.
pub fn model_name_from_path(path: &String) -> (r: String)
    ensures
        r@ == spec_model_name(path@),
{
    let n = path.as_str().unicode_len();
    let base_start: usize = match last_index_of(path.as_str(), '/') {
        Some(i) => i + 1,
        None => 0,
    };
    let base = String::from_str(path.as_str().substring_char(base_start, n));
    proof {
        assert(base@ =~= path@.skip(spec_last_index_of(path@, '/') + 1));
    }
    if base.as_str().unicode_len() == 0 {
        return String::from_str("unknown");
    }
    match last_index_of(base.as_str(), '.') {
        Some(d) if d > 0 => {
            let stem = String::from_str(base.as_str().substring_char(0, d));
            proof {
                assert(stem@ =~= base@.take(spec_last_index_of(base@, '.')));
            }
            stem
        },
        _ => base,
    }
}

} // verus!
