//! Character-level helpers: ASCII case folding, file-name extensions, and
//! the audio extension allow-list.

use vstd::prelude::*;
use vstd::string::StrSliceExecFns;

verus! {

/// The lowercase form of an ASCII uppercase letter; any other character
/// is unchanged.
pub open spec fn lower_char(c: char) -> char {
    if 'A' <= c && c <= 'Z' {
        (((c as u8) + 32) as char)
    } else {
        c
    }
}

/// A character sequence with every ASCII uppercase letter lowered.
pub open spec fn lower_chars(s: Seq<char>) -> Seq<char> {
    s.map_values(|c: char| lower_char(c))
}

pub fn to_lower_char(c: char) -> (r: char)
    ensures
        r == lower_char(c),
{
    if c >= 'A' && c <= 'Z' {
        ((c as u8) + 32) as char
    } else {
        c
    }
}

/// Index of the last `'.'` in a character sequence, if there is one.
pub open spec fn last_dot(s: Seq<char>) -> Option<int>
    decreases s.len(),
{
    if s.len() == 0 {
        None
    } else if s.last() == '.' {
        Some(s.len() - 1)
    } else {
        last_dot(s.drop_last())
    }
}

/// The extension of a file name: the characters after the last `'.'`, or
/// nothing when the name holds no `'.'` at all.
pub open spec fn extension_of(name: Seq<char>) -> Option<Seq<char>> {
    match last_dot(name) {
        Some(i) => Some(name.subrange(i + 1, name.len() as int)),
        None => None,
    }
}

proof fn lemma_last_dot_at(s: Seq<char>, i: int)
    requires
        0 <= i < s.len(),
        s[i] == '.',
        forall|j: int| i < j < s.len() ==> s[j] != '.',
    ensures
        last_dot(s) == Some(i),
    decreases s.len(),
{
    if i < s.len() - 1 {
        lemma_last_dot_at(s.drop_last(), i);
    }
}

proof fn lemma_last_dot_none(s: Seq<char>)
    requires
        forall|j: int| 0 <= j < s.len() ==> s[j] != '.',
    ensures
        last_dot(s) == None::<int>,
    decreases s.len(),
{
    if s.len() > 0 {
        lemma_last_dot_none(s.drop_last());
    }
}

/// The extension of `name`, as `extension_of` describes it.
pub fn extension(name: &str) -> (r: Option<String>)
    ensures
        r.deep_view() == extension_of(name@),
{
    let n = name.unicode_len();
    let mut i = n;
    while i > 0
        invariant
            i <= n,
            n == name@.len(),
            forall|j: int| i <= j < n ==> name@[j] != '.',
        decreases i,
    {
        i = i - 1;
        if name.get_char(i) == '.' {
            let ext = name.substring_char(i + 1, n);
            proof {
                lemma_last_dot_at(name@, i as int);
            }
            return Some(ext.to_owned());
        }
    }
    proof {
        lemma_last_dot_none(name@);
    }
    None
}

/// Whether folding `s` to lowercase yields exactly `t`.
pub fn eq_lowered(s: &str, t: &str) -> (r: bool)
    ensures
        r == (lower_chars(s@) == t@),
{
    let n = s.unicode_len();
    if n != t.unicode_len() {
        proof {
            assert(lower_chars(s@).len() == s@.len());
        }
        return false;
    }
    let mut i: usize = 0;
    while i < n
        invariant
            i <= n,
            n == s@.len(),
            n == t@.len(),
            forall|j: int| 0 <= j < i ==> lower_char(s@[j]) == t@[j],
        decreases n - i,
    {
        if to_lower_char(s.get_char(i)) != t.get_char(i) {
            proof {
                assert(lower_chars(s@)[i as int] == lower_char(s@[i as int]));
            }
            return false;
        }
        i = i + 1;
    }
    proof {
        assert(lower_chars(s@) =~= t@);
    }
    true
}

/// Whether `ext`, folded to lowercase, is on the audio allow-list.
pub open spec fn is_audio_extension(ext: Seq<char>) -> bool {
    let l = lower_chars(ext);
    ||| l == "mp3"@
    ||| l == "wav"@
    ||| l == "ogg"@
    ||| l == "m4a"@
    ||| l == "aac"@
    ||| l == "flac"@
}

pub fn classify_extension(ext: &str) -> (r: bool)
    ensures
        r == is_audio_extension(ext@),
{
    eq_lowered(ext, "mp3") || eq_lowered(ext, "wav") || eq_lowered(ext, "ogg")
        || eq_lowered(ext, "m4a") || eq_lowered(ext, "aac") || eq_lowered(ext, "flac")
}

/// Whether a file name carries an extension on the audio allow-list.
pub open spec fn is_audio_file_name(name: Seq<char>) -> bool {
    match extension_of(name) {
        Some(e) => is_audio_extension(e),
        None => false,
    }
}

pub fn classify_file_name(name: &str) -> (r: bool)
    ensures
        r == is_audio_file_name(name@),
{
    match extension(name) {
        Some(e) => classify_extension(e.as_str()),
        None => false,
    }
}

} // verus!
