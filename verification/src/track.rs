//! Track references: their order, their display names, and the rule that
//! tells which files are tracks.

use vstd::prelude::*;
use vstd::seq_lib::to_multiset_remove;
use vstd::utf8::{encode_utf8, encode_utf8_decode_utf8};
use crate::paths::{extension_of, file_extension, file_stem, stem_of};

verus! {

/// Byte-wise dictionary order: `a` comes no later than `b`.
pub open spec fn lex_le(a: Seq<u8>, b: Seq<u8>) -> bool
    decreases a.len(),
{
    if a.len() == 0 {
        true
    } else if b.len() == 0 {
        false
    } else if a[0] != b[0] {
        a[0] < b[0]
    } else {
        lex_le(a.drop_first(), b.drop_first())
    }
}

/// Any two byte strings are ordered one way or the other.
pub proof fn lemma_lex_le_total(a: Seq<u8>, b: Seq<u8>)
    ensures
        lex_le(a, b) || lex_le(b, a),
    decreases a.len(),
{
    if a.len() > 0 && b.len() > 0 && a[0] == b[0] {
        lemma_lex_le_total(a.drop_first(), b.drop_first());
    }
}

/// The order passes along a chain.
pub proof fn lemma_lex_le_transitive(a: Seq<u8>, b: Seq<u8>, c: Seq<u8>)
    requires
        lex_le(a, b),
        lex_le(b, c),
    ensures
        lex_le(a, c),
    decreases a.len(),
{
    if a.len() > 0 && b.len() > 0 && c.len() > 0 && a[0] == b[0] && b[0] == c[0] {
        lemma_lex_le_transitive(a.drop_first(), b.drop_first(), c.drop_first());
    }
}

/// Two byte strings that are ordered both ways are the same string.
pub proof fn lemma_lex_le_antisymmetric(a: Seq<u8>, b: Seq<u8>)
    requires
        lex_le(a, b),
        lex_le(b, a),
    ensures
        a == b,
    decreases a.len(),
{
    if a.len() > 0 && b.len() > 0 {
        lemma_lex_le_antisymmetric(a.drop_first(), b.drop_first());
        assert(a =~= seq![a[0]] + a.drop_first());
        assert(b =~= seq![b[0]] + b.drop_first());
    } else {
        assert(a =~= b);
    }
}

/// The order of track identifiers: dictionary order of their UTF-8 bytes,
/// which is also the order of their code points.
pub open spec fn path_le(a: Seq<char>, b: Seq<char>) -> bool {
    lex_le(encode_utf8(a), encode_utf8(b))
}

/// Every identifier in `paths` comes no later than those after it.
pub open spec fn sorted(paths: Seq<Seq<char>>) -> bool {
    forall|i: int, j: int| 0 <= i < j < paths.len() ==> path_le(paths[i], paths[j])
}

/// Two identifiers that are ordered both ways are the same identifier.
pub proof fn lemma_path_le_antisymmetric(a: Seq<char>, b: Seq<char>)
    requires
        path_le(a, b),
        path_le(b, a),
    ensures
        a == b,
{
    lemma_lex_le_antisymmetric(encode_utf8(a), encode_utf8(b));
    encode_utf8_decode_utf8(a);
    encode_utf8_decode_utf8(b);
}

/// Sorting leaves no choice: two sorted lists that hold the same
/// identifiers, each as often as the other, are the same list.
pub proof fn lemma_sorted_is_unique(a: Seq<Seq<char>>, b: Seq<Seq<char>>)
    requires
        sorted(a),
        sorted(b),
        a.to_multiset() == b.to_multiset(),
    ensures
        a == b,
    decreases a.len(),
{
    a.to_multiset_ensures();
    b.to_multiset_ensures();
    if a.len() == 0 {
        assert(a =~= b);
    } else {
        assert(a.contains(a[0]));
        assert(b.contains(b[0]));
        assert(b.to_multiset().count(a[0]) > 0);
        assert(a.to_multiset().count(b[0]) > 0);
        let k = choose|k: int| 0 <= k < b.len() && b[k] == a[0];
        let m = choose|m: int| 0 <= m < a.len() && a[m] == b[0];
        if k != 0 && m != 0 {
            assert(path_le(b[0], b[k]));
            assert(path_le(a[0], a[m]));
            lemma_path_le_antisymmetric(a[0], b[0]);
        }
        assert(a[0] == b[0]);
        let a_rest = a.drop_first();
        let b_rest = b.drop_first();
        assert(a_rest =~= a.remove(0));
        assert(b_rest =~= b.remove(0));
        to_multiset_remove(a, 0);
        to_multiset_remove(b, 0);
        assert forall|i: int, j: int| 0 <= i < j < a_rest.len() implies path_le(
            a_rest[i],
            a_rest[j],
        ) by {
            assert(path_le(a[i + 1], a[j + 1]));
        }
        assert forall|i: int, j: int| 0 <= i < j < b_rest.len() implies path_le(
            b_rest[i],
            b_rest[j],
        ) by {
            assert(path_le(b[i + 1], b[j + 1]));
        }
        lemma_sorted_is_unique(a_rest, b_rest);
        assert(a =~= seq![a[0]] + a_rest);
        assert(b =~= seq![b[0]] + b_rest);
    }
}

fn bytes_le(a: &[u8], b: &[u8]) -> (r: bool)
    ensures
        r == lex_le(a@, b@),
{
    let mut i: usize = 0;
    proof {
        assert(a@.skip(0) =~= a@);
        assert(b@.skip(0) =~= b@);
    }
    while i < a.len() && i < b.len()
        invariant
            i <= a@.len(),
            i <= b@.len(),
            lex_le(a@, b@) == lex_le(a@.skip(i as int), b@.skip(i as int)),
        decreases a@.len() - i,
    {
        if a[i] != b[i] {
            return a[i] < b[i];
        }
        proof {
            assert(a@.skip(i as int).drop_first() =~= a@.skip(i + 1));
            assert(b@.skip(i as int).drop_first() =~= b@.skip(i + 1));
        }
        i += 1;
    }
    i == a.len()
}

/// The lower-case form of an ASCII capital; every other character is itself.
pub open spec fn ascii_lower(c: char) -> char {
    if 'A' <= c && c <= 'Z' {
        ((c as u32) + 32) as char
    } else {
        c
    }
}

/// Whether `ext`, with its ASCII capitals lowered, is `mp3` or `wav`.
pub open spec fn audio_extension(ext: Seq<char>) -> bool {
    let folded = ext.map_values(|c: char| ascii_lower(c));
    folded =~= seq!['m', 'p', '3'] || folded =~= seq!['w', 'a', 'v']
}

/// Whether the path names an audio file: it has an extension, and that
/// extension is an accepted one.
pub open spec fn audio_path(path: Seq<char>) -> bool {
    match file_extension(path) {
        Some(ext) => audio_extension(ext),
        None => false,
    }
}

/// The name shown for a track whose path has the given stem.
pub open spec fn display_name(stem: Option<Seq<char>>) -> Seq<char> {
    match stem {
        Some(stem) => stem,
        None => Seq::empty(),
    }
}

fn to_ascii_lower(c: char) -> (r: char)
    ensures
        r == ascii_lower(c),
{
    if 'A' <= c && c <= 'Z' {
        (((c as u32) + 32) as u8) as char
    } else {
        c
    }
}

/// Tells whether a file extension, without its dot, is one the player accepts.
pub fn is_audio_extension(ext: &str) -> (r: bool)
    ensures
        r == audio_extension(ext@),
{
    if ext.unicode_len() != 3 {
        return false;
    }
    let a = to_ascii_lower(ext.get_char(0));
    let b = to_ascii_lower(ext.get_char(1));
    let c = to_ascii_lower(ext.get_char(2));
    let ghost folded = ext@.map_values(|c: char| ascii_lower(c));
    assert(folded[0] == a && folded[1] == b && folded[2] == c);
    (a == 'm' && b == 'p' && c == '3') || (a == 'w' && b == 'a' && c == 'v')
}

/// Tells whether a path names an audio file by its extension.
pub fn is_audio_file(path: &str) -> (r: bool)
    ensures
        r == audio_path(path@),
{
    match extension_of(path) {
        Some(ext) => is_audio_extension(ext.as_str()),
        None => false,
    }
}

/// The display name for a file stem: the stem itself, or nothing where the
/// path has none.
pub fn name_from_stem(stem: Option<String>) -> (name: String)
    ensures
        name@ == display_name(crate::paths::text_of(stem)),
{
    match stem {
        Some(stem) => stem,
        None => String::new(),
    }
}

/// A reference to one playable file: its path, kept as text.
#[derive(Debug)]
pub struct Track {
    path: String,
}

impl View for Track {
    type V = Seq<char>;

    closed spec fn view(&self) -> Seq<char> {
        self.path@
    }
}

impl Track {
    /// The sort key of the track: the UTF-8 bytes of its path.
    pub open spec fn key(&self) -> Seq<u8> {
        encode_utf8(self@)
    }

    pub fn new(path: String) -> (track: Track)
        ensures
            track@ == path@,
    {
        Track { path }
    }

    pub fn path(&self) -> (path: &str)
        ensures
            path@ == self@,
    {
        self.path.as_str()
    }

    /// Whether this track sorts no later than `other`.
    pub fn precedes(&self, other: &Track) -> (r: bool)
        ensures
            r == path_le(self@, other@),
    {
        bytes_le(self.path.as_str().as_bytes(), other.path.as_str().as_bytes())
    }

    /// The name to show for the track: the stem of its file name.
    pub fn display_name(&self) -> (name: String)
        ensures
            name@ == display_name(file_stem(self@)),
    {
        name_from_stem(stem_of(self.path.as_str()))
    }
}

} // verus!
