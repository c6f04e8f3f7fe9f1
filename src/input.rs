//! Reading what the user asked for: a catalog URL or a bare identifier.
use vstd::prelude::*;

verus! {

#[derive(PartialEq, Eq, Structural, Clone, Copy, Debug)]
pub enum MediaType {
    Track,
    Album,
    Playlist,
}

/// `s` starts with `p`.
pub open spec fn has_prefix(s: Seq<char>, p: Seq<char>) -> bool {
    p.len() <= s.len() && s.subrange(0, p.len() as int) == p
}

/// `s` without every repetition of the suffix `p` at its end.
pub open spec fn trim_suffixes(s: Seq<char>, p: Seq<char>) -> Seq<char>
    decreases s.len(),
{
    if p.len() > 0 && p.len() <= s.len() && s.subrange(s.len() - p.len(), s.len() as int) == p {
        trim_suffixes(s.subrange(0, s.len() - p.len()), p)
    } else {
        s
    }
}

/// Index of the last `'/'` of `s`, or -1.
pub open spec fn last_slash(s: Seq<char>) -> int
    decreases s.len(),
{
    if s.len() == 0 {
        -1
    } else if s.last() == '/' {
        s.len() - 1
    } else {
        last_slash(s.drop_last())
    }
}

/// The media kind that a path component names.
pub open spec fn kind_of(word: Seq<char>) -> Option<MediaType> {
    if word == "track"@ {
        Some(MediaType::Track)
    } else if word == "album"@ {
        Some(MediaType::Album)
    } else if word == "playlist"@ {
        Some(MediaType::Playlist)
    } else {
        None
    }
}

/// A URL, with trailing `"/u"` and `'/'` taken off, read as
/// `.../<kind>/<id>`.
pub open spec fn spec_parse_url(url: Seq<char>) -> Option<(Seq<char>, MediaType)> {
    let s = trim_suffixes(trim_suffixes(url, seq!['/', 'u']), seq!['/']);
    let last = last_slash(s);
    let head = s.subrange(0, last);
    let word = head.subrange(last_slash(head) + 1, head.len() as int);
    if last < 0 {
        None
    } else {
        match kind_of(word) {
            Some(k) => Some((s.subrange(last + 1, s.len() as int), k)),
            None => None,
        }
    }
}

/// A catalog URL that names its kind gives its id and kind; anything else
/// is taken as an id: a playlist's when it holds a `'-'`, else a track's.
pub open spec fn spec_parse_input(input: Seq<char>) -> (Seq<char>, MediaType) {
    let is_url = has_prefix(input, "http://"@) || has_prefix(input, "https://"@);
    if is_url && spec_parse_url(input) is Some {
        spec_parse_url(input).unwrap()
    } else if input.contains('-') {
        (input, MediaType::Playlist)
    } else {
        (input, MediaType::Track)
    }
}

proof fn lemma_last_slash(s: Seq<char>)
    ensures
        -1 <= last_slash(s) < s.len(),
        last_slash(s) >= 0 ==> s[last_slash(s)] == '/',
        forall|j: int| last_slash(s) < j < s.len() ==> s[j] != '/',
    decreases s.len(),
{
    if s.len() > 0 && s.last() != '/' {
        lemma_last_slash(s.drop_last());
        assert forall|j: int| last_slash(s) < j < s.len() implies s[j] != '/' by {
            if j < s.len() - 1 {
                assert(s.drop_last()[j] == s[j]);
            }
        }
    }
}

/// Whether the characters `from..to` of `s` spell `word`.
fn span_is(s: &str, from: usize, to: usize, word: &str) -> (r: bool)
    requires
        from <= to <= s@.len(),
    ensures
        r == (s@.subrange(from as int, to as int) == word@),
{
    let n = word.unicode_len();
    if to - from != n {
        return false;
    }
    let mut i: usize = 0;
    while i < n
        invariant
            n == word@.len(),
            to - from == n,
            from <= to <= s@.len(),
            i <= n,
            forall|j: int| 0 <= j < i ==> s@[from + j] == word@[j],
        decreases n - i,
    {
        if s.get_char(from + i) != word.get_char(i) {
            assert(s@.subrange(from as int, to as int)[i as int] != word@[i as int]);
            return false;
        }
        i = i + 1;
    }
    assert(s@.subrange(from as int, to as int) =~= word@);
    true
}

fn starts_with(s: &str, p: &str) -> (r: bool)
    ensures
        r == has_prefix(s@, p@),
{
    let n = p.unicode_len();
    if n > s.unicode_len() {
        return false;
    }
    span_is(s, 0, n, p)
}

/// Length of the first `len` characters of `s` once every repetition of
/// `p` at their end is taken off.
fn trimmed_len(s: &str, len: usize, p: &str) -> (r: usize)
    requires
        len <= s@.len(),
    ensures
        r <= len,
        s@.subrange(0, r as int) == trim_suffixes(s@.subrange(0, len as int), p@),
{
    let n = p.unicode_len();
    let mut end = len;
    while n > 0 && n <= end && span_is(s, end - n, end, p)
        invariant
            n == p@.len(),
            end <= len <= s@.len(),
            trim_suffixes(s@.subrange(0, end as int), p@) == trim_suffixes(
                s@.subrange(0, len as int),
                p@,
            ),
        decreases end,
    {
        let ghost t = s@.subrange(0, end as int);
        assert(t.subrange(t.len() - n, t.len() as int) == s@.subrange(end - n, end as int));
        assert(t.subrange(0, t.len() - n) == s@.subrange(0, end - n));
        end = end - n;
    }
    let ghost t = s@.subrange(0, end as int);
    assert(n > 0 && n <= end ==> t.subrange(t.len() - n, t.len() as int) == s@.subrange(
        end - n,
        end as int,
    ));
    end
}

/// Position of the last `'/'` among the first `len` characters of `s`.
fn find_last_slash(s: &str, len: usize) -> (r: Option<usize>)
    requires
        len <= s@.len(),
    ensures
        match r {
            Some(i) => i < len && i as int == last_slash(s@.subrange(0, len as int)),
            None => last_slash(s@.subrange(0, len as int)) == -1,
        },
{
    let mut i = len;
    while i > 0
        invariant
            i <= len <= s@.len(),
            last_slash(s@.subrange(0, len as int)) == last_slash(s@.subrange(0, i as int)),
        decreases i,
    {
        let ghost t = s@.subrange(0, i as int);
        assert(t.drop_last() == s@.subrange(0, i - 1));
        if s.get_char(i - 1) == '/' {
            return Some(i - 1);
        }
        i = i - 1;
    }
    None
}

/// Reads `.../<kind>/<id>` from a catalog URL, after taking off a trailing
/// `"/u"` and `'/'`; `None` when the URL has no `'/'` or the kind is
/// unknown.
pub fn parse_tidal_url(url: &str) -> (r: Option<(String, MediaType)>)
    ensures
        match (r, spec_parse_url(url@)) {
            (Some((id, k)), Some((sid, sk))) => id@ == sid && k == sk,
            (None, None) => true,
            _ => false,
        },
{
    let total = url.unicode_len();
    let end1 = trimmed_len(url, total, "/u");
    proof {
        reveal_strlit("/u");
        reveal_strlit("/");
        assert("/u"@ =~= seq!['/', 'u']);
        assert("/"@ =~= seq!['/']);
        assert(url@.subrange(0, total as int) == url@);
        assert(url@.subrange(0, end1 as int).subrange(0, end1 as int) == url@.subrange(0, end1 as int));
    }
    let end = trimmed_len(url, end1, "/");
    let ghost s = url@.subrange(0, end as int);
    assert(s == trim_suffixes(trim_suffixes(url@, seq!['/', 'u']), seq!['/']));
    match find_last_slash(url, end) {
        None => None,
        Some(last) => {
            proof {
                lemma_last_slash(s);
                assert(url@.subrange(0, last as int) == s.subrange(0, last as int));
            }
            let start = match find_last_slash(url, last) {
                Some(p) => p + 1,
                None => 0,
            };
            let ghost head = s.subrange(0, last as int);
            proof {
                lemma_last_slash(head);
                assert(head.subrange(start as int, head.len() as int) == url@.subrange(
                    start as int,
                    last as int,
                ));
                assert(s.subrange(last + 1, s.len() as int) == url@.subrange(last + 1, end as int));
            }
            let kind = if span_is(url, start, last, "track") {
                MediaType::Track
            } else if span_is(url, start, last, "album") {
                MediaType::Album
            } else if span_is(url, start, last, "playlist") {
                MediaType::Playlist
            } else {
                return None;
            };
            let id = String::from_str(url.substring_char(last + 1, end));
            Some((id, kind))
        },
    }
}

/// Reads a catalog URL or a bare identifier into an id and its media
/// kind.
pub fn parse_tidal_input(input: &str) -> (r: (String, MediaType))
    ensures
        r.0@ == spec_parse_input(input@).0,
        r.1 == spec_parse_input(input@).1,
{
    if starts_with(input, "http://") || starts_with(input, "https://") {
        if let Some(parsed) = parse_tidal_url(input) {
            return parsed;
        }
    }
    let n = input.unicode_len();
    let mut i: usize = 0;
    while i < n
        invariant
            n == input@.len(),
            i <= n,
            forall|j: int| 0 <= j < i ==> input@[j] != '-',
            !((has_prefix(input@, "http://"@) || has_prefix(input@, "https://"@))
                && spec_parse_url(input@) is Some),
        decreases n - i,
    {
        if input.get_char(i) == '-' {
            assert(input@[i as int] == '-');
            return (String::from_str(input), MediaType::Playlist);
        }
        i = i + 1;
    }
    assert(!input@.contains('-'));
    (String::from_str(input), MediaType::Track)
}

} // verus!
