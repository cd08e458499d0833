//! Content types, chosen by the extension of an asset's logical path.

use crate::text::chars_of;
use vstd::prelude::*;
use vstd::string::StringExecFns;

verus! {

/// A media type: a top-level type and a subtype, as in `text/css`.
#[derive(Debug)]
pub struct ContentType {
    pub ttype: String,
    pub subtype: String,
}

impl View for ContentType {
    type V = (Seq<char>, Seq<char>);

    open spec fn view(&self) -> (Seq<char>, Seq<char>) {
        (self.ttype@, self.subtype@)
    }
}

/// The media type of a stylesheet.
pub open spec fn css_type() -> (Seq<char>, Seq<char>) {
    (seq!['t', 'e', 'x', 't'], seq!['c', 's', 's'])
}

/// The media type that stands for "unknown": any type, any subtype.
pub open spec fn any_type() -> (Seq<char>, Seq<char>) {
    (seq!['*'], seq!['*'])
}

impl ContentType {
    /// The media type with the given top-level type and subtype.
    pub fn new(ttype: &str, subtype: &str) -> (ct: ContentType)
        ensures
            ct@ == (ttype@, subtype@),
    {
        ContentType { ttype: String::from_str(ttype), subtype: String::from_str(subtype) }
    }

    /// `text/css`.
    pub fn css() -> (ct: ContentType)
        ensures
            ct@ == css_type(),
    {
        proof {
            reveal_strlit("text");
            reveal_strlit("css");
            assert("text"@ =~= css_type().0);
            assert("css"@ =~= css_type().1);
        }
        ContentType::new("text", "css")
    }

    /// `*/*`, the classification of an asset whose type is not known.
    pub fn any() -> (ct: ContentType)
        ensures
            ct@ == any_type(),
    {
        proof {
            reveal_strlit("*");
            assert("*"@ =~= seq!['*']);
        }
        ContentType::new("*", "*")
    }
}

impl Clone for ContentType {
    fn clone(&self) -> (ct: ContentType)
        ensures
            ct@ == self@,
    {
        ContentType { ttype: self.ttype.clone(), subtype: self.subtype.clone() }
    }
}

/// The media type that the extension table gives for an extension, if it
/// knows the extension.
pub uninterp spec fn known_media_type(ext: Seq<char>) -> Option<(Seq<char>, Seq<char>)>;

/// `rocket::http::ContentType::from_extension`: the top-level type and the
/// subtype of the table's entry for `ext`, or `None` where the table has no
/// entry. The table is fixed, so the answer depends on `ext` alone.
#[verifier::external_body]
pub(crate) fn media_type_from_extension(ext: &str) -> (found: Option<ContentType>)
    ensures
        match found {
            Some(ct) => known_media_type(ext@) == Some(ct@),
            None => known_media_type(ext@) is None,
        },
{
    match rocket::http::ContentType::from_extension(ext) {
        Some(ct) => Some(
            ContentType {
                ttype: ct.top().as_str().to_string(),
                subtype: ct.sub().as_str().to_string(),
            },
        ),
        None => None,
    }
}

/// Where `c` last occurs in `s`, or `-1` where it does not occur.
pub open spec fn last_index_of(s: Seq<char>, c: char) -> int
    decreases s.len(),
{
    if s.len() == 0 {
        -1
    } else if s.last() == c {
        s.len() - 1
    } else {
        last_index_of(s.drop_last(), c)
    }
}

/// The part of a logical path after its last `/`.
pub open spec fn final_segment(path: Seq<char>) -> Seq<char> {
    path.skip(last_index_of(path, '/') + 1)
}

/// The extension of a logical path: what follows the last `.` of its final
/// segment. A segment without a dot, one whose only dot comes first, and the
/// segment `..` have none.
pub open spec fn extension_of(path: Seq<char>) -> Option<Seq<char>> {
    let segment = final_segment(path);
    let dot = last_index_of(segment, '.');
    if dot <= 0 || segment == seq!['.', '.'] {
        None
    } else {
        Some(segment.skip(dot + 1))
    }
}

/// The media type that was found, or `*/*` where none was.
pub open spec fn or_any(found: Option<(Seq<char>, Seq<char>)>) -> (Seq<char>, Seq<char>) {
    match found {
        Some(media) => media,
        None => any_type(),
    }
}

/// The content type of a logical path: the table's entry for its extension,
/// and `*/*` where the path has no extension or the table does not know it.
pub open spec fn content_type_of(path: Seq<char>) -> (Seq<char>, Seq<char>) {
    match extension_of(path) {
        Some(ext) => or_any(known_media_type(ext)),
        None => any_type(),
    }
}

/// Where `c` last occurs in `s`, said without recursion: behind it `c` does
/// not occur again, and `-1` means that it does not occur at all.
pub proof fn lemma_last_index_of(s: Seq<char>, c: char)
    ensures
        -1 <= last_index_of(s, c) < s.len(),
        last_index_of(s, c) >= 0 ==> s[last_index_of(s, c)] == c,
        forall|i: int| last_index_of(s, c) < i < s.len() ==> s[i] != c,
    decreases s.len(),
{
    if s.len() > 0 {
        lemma_last_index_of(s.drop_last(), c);
        assert forall|i: int| last_index_of(s, c) < i < s.len() implies s[i] != c by {
            if i < s.len() - 1 {
                assert(s.drop_last()[i] == s[i]);
            }
        }
    }
}

/// An extension holds neither a dot nor a slash.
pub proof fn lemma_extension_is_bare(path: Seq<char>)
    ensures
        extension_of(path) matches Some(ext) ==> forall|i: int|
            0 <= i < ext.len() ==> ext[i] != '.' && ext[i] != '/',
{
    let segment = final_segment(path);
    lemma_last_index_of(path, '/');
    lemma_last_index_of(segment, '.');
}

/// Where `c` last occurs in a sequence with one more character.
proof fn lemma_last_index_push(s: Seq<char>, x: char, c: char)
    ensures
        last_index_of(s.push(x), c) == if x == c {
            s.len() as int
        } else {
            last_index_of(s, c)
        },
{
    assert(s.push(x).drop_last() =~= s);
}

/// Scans `chars[from..]` for the last `c`; the result counts from `from`.
fn last_index_from(chars: &Vec<char>, from: usize, c: char) -> (found: Option<usize>)
    requires
        from <= chars@.len(),
    ensures
        match found {
            Some(i) => i as int == last_index_of(chars@.skip(from as int), c) && from + i
                < chars@.len() && chars@[from + i] == c,
            None => last_index_of(chars@.skip(from as int), c) == -1,
        },
{
    let n: usize = chars.len();
    let ghost tail = chars@.skip(from as int);
    let mut found: Option<usize> = None;
    let mut i: usize = from;
    while i < n
        invariant
            n == chars@.len(),
            from <= i <= n,
            tail == chars@.skip(from as int),
            match found {
                Some(k) => k as int == last_index_of(tail.take(i - from), c) && from + k < i
                    && chars@[from + k] == c,
                None => last_index_of(tail.take(i - from), c) == -1,
            },
        decreases n - i,
    {
        proof {
            lemma_last_index_push(tail.take(i - from), chars@[i as int], c);
            assert(tail.take(i - from + 1) =~= tail.take(i - from).push(chars@[i as int]));
        }
        if chars[i] == c {
            found = Some(i - from);
        }
        i += 1;
    }
    proof {
        assert(tail.take(n - from) =~= tail);
    }
    found
}

/// The extension of a logical path, as `extension_of` defines it.
pub fn extension(path: &str) -> (ext: Option<String>)
    ensures
        match ext {
            Some(e) => extension_of(path@) == Some(e@),
            None => extension_of(path@) is None,
        },
{
    let chars: Vec<char> = chars_of(path);
    let n: usize = chars.len();
    let start: usize = match last_index_from(&chars, 0, '/') {
        Some(slash) => slash + 1,
        None => 0,
    };
    proof {
        assert(chars@.skip(0) =~= chars@);
    }
    let ghost segment = final_segment(path@);
    assert(segment == chars@.skip(start as int));
    match last_index_from(&chars, start, '.') {
        None => None,
        Some(dot) => {
            if dot == 0 || (dot == 1 && n - start == 2 && chars[start] == '.') {
                proof {
                    if dot == 1 {
                        assert(segment =~= seq!['.', '.']);
                    }
                }
                None
            } else {
                let mut ext: String = String::new();
                let first: usize = start + dot + 1;
                let mut i: usize = first;
                while i < n
                    invariant
                        n == chars@.len(),
                        first <= i <= n,
                        ext@ == chars@.subrange(first as int, i as int),
                    decreases n - i,
                {
                    ext.push(chars[i]);
                    assert(chars@.subrange(first as int, i as int + 1) =~= chars@.subrange(
                        first as int,
                        i as int,
                    ).push(chars@[i as int]));
                    i += 1;
                }
                proof {
                    assert(ext@ =~= segment.skip(dot as int + 1));
                    if segment == seq!['.', '.'] {
                        assert(segment.len() == 2);
                        assert(segment[0] == '.');
                    }
                }
                Some(ext)
            }
        },
    }
}

/// The content type that the table gave, or `*/*` where it gave none.
pub fn known_or_any(found: Option<ContentType>) -> (ct: ContentType)
    ensures
        ct@ == or_any(
            match found {
                Some(known) => Some(known@),
                None => None,
            },
        ),
{
    match found {
        Some(ct) => ct,
        None => ContentType::any(),
    }
}

/// The content type under which the asset at a logical path is served.
pub fn content_type_for(path: &str) -> (ct: ContentType)
    ensures
        ct@ == content_type_of(path@),
{
    match extension(path) {
        Some(ext) => known_or_any(media_type_from_extension(ext.as_str())),
        None => ContentType::any(),
    }
}

} // verus!
