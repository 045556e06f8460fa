//! Classification of a directory listing into audio-file descriptors.
//!
//! The filesystem observation comes in as a [`DirListing`]: either the way
//! the path failed to be a readable directory, or the raw entries that
//! enumeration produced. Scanning then is a pure function of that value.

use vstd::prelude::*;

use crate::text::is_audio_file_name;

verus! {

/// Descriptor of one audio file found by a scan.
pub struct AudioFileInfo {
    pub name: String,
    pub path: String,
    pub size: u64,
    pub is_audio: bool,
}

/// Mathematical value of an [`AudioFileInfo`].
pub ghost struct AudioFileView {
    pub name: Seq<char>,
    pub path: Seq<char>,
    pub size: u64,
    pub is_audio: bool,
}

impl View for AudioFileInfo {
    type V = AudioFileView;

    open spec fn view(&self) -> AudioFileView {
        AudioFileView {
            name: self.name@,
            path: self.path@,
            size: self.size,
            is_audio: self.is_audio,
        }
    }
}

/// One raw child of a directory, as enumeration reported it.
///
/// `name` is the base name where it could be decoded to text; `size` is the
/// metadata length where metadata could be read. Either may be missing for
/// an individual entry without failing the scan.
pub struct RawDirEntry {
    pub name: Option<String>,
    pub path: String,
    pub size: Option<u64>,
    pub is_file: bool,
}

/// Mathematical value of a [`RawDirEntry`].
pub ghost struct RawDirEntryView {
    pub name: Option<Seq<char>>,
    pub path: Seq<char>,
    pub size: Option<u64>,
    pub is_file: bool,
}

impl View for RawDirEntry {
    type V = RawDirEntryView;

    open spec fn view(&self) -> RawDirEntryView {
        RawDirEntryView {
            name: match self.name {
                Some(n) => Some(n@),
                None => None,
            },
            path: self.path@,
            size: self.size,
            is_file: self.is_file,
        }
    }
}

/// Outcome of asking the filesystem for a directory's children.
pub enum DirListing {
    /// The path does not exist.
    Missing,
    /// The path exists but is not a directory.
    NotDirectory,
    /// The path is a directory, but enumerating it failed (for instance,
    /// permission was denied).
    Unreadable,
    /// The entries that enumeration produced, in enumeration order.
    Entries(Vec<RawDirEntry>),
}

/// The one caller-visible scan failure.
#[derive(Debug)]
pub enum ScanError {
    /// The path exists but is not a directory.
    InvalidPath,
}

impl ScanError {
    /// The message the embedding application shows for this failure.
    pub fn message(&self) -> (r: &'static str)
        ensures
            r@ == "Path is not a directory"@,
    {
        "Path is not a directory"
    }
}

/// Whether a raw entry is reported by a scan: it must be a regular file,
/// its name must have decoded, its metadata must have been readable, and
/// its extension must be on the audio allow-list.
pub open spec fn entry_included(e: RawDirEntryView) -> bool {
    &&& e.is_file
    &&& e.name is Some
    &&& e.size is Some
    &&& is_audio_file_name(e.name->0)
}

/// The descriptor a reported entry turns into.
pub open spec fn entry_info(e: RawDirEntryView) -> AudioFileView {
    AudioFileView { name: e.name->0, path: e.path, size: e.size->0, is_audio: true }
}

/// The audio descriptors of a raw listing, in listing order.
pub open spec fn audio_listing(es: Seq<RawDirEntryView>) -> Seq<AudioFileView> {
    es.filter(|e: RawDirEntryView| entry_included(e)).map_values(
        |e: RawDirEntryView| entry_info(e),
    )
}

/// Views of a sequence of raw entries.
pub open spec fn raw_views(es: Seq<RawDirEntry>) -> Seq<RawDirEntryView> {
    es.map_values(|e: RawDirEntry| e@)
}

/// Views of a sequence of descriptors.
pub open spec fn info_views(v: Seq<AudioFileInfo>) -> Seq<AudioFileView> {
    v.map_values(|f: AudioFileInfo| f@)
}

/// The audio descriptors among `es`, in order.
fn collect_audio_files(es: &Vec<RawDirEntry>) -> (r: Vec<AudioFileInfo>)
    ensures
        info_views(r@) == audio_listing(raw_views(es@)),
{
    let mut out: Vec<AudioFileInfo> = Vec::new();
    let mut i: usize = 0;
    while i < es.len()
        invariant
            i <= es@.len(),
            info_views(out@) == audio_listing(raw_views(es@.take(i as int))),
        decreases es@.len() - i,
    {
        let ghost prefix = raw_views(es@.take(i as int));
        let e = &es[i];
        if e.is_file {
            if let Some(name) = &e.name {
                if let Some(size) = e.size {
                    if crate::text::classify_file_name(name.as_str()) {
                        let info = AudioFileInfo {
                            name: name.clone(),
                            path: e.path.clone(),
                            size,
                            is_audio: true,
                        };
                        proof {
                            assert(info@ == entry_info(e@));
                        }
                        out.push(info);
                    }
                }
            }
        }
        proof {
            assert(es@.take(i + 1 as int) =~= es@.take(i as int).push(es@[i as int]));
            assert(raw_views(es@.take(i + 1 as int)) =~= prefix.push(e@));
            lemma_audio_listing_push(prefix, e@);
            assert(info_views(out@) =~= audio_listing(raw_views(es@.take(i + 1 as int))));
        }
        i = i + 1;
    }
    proof {
        assert(es@.take(es@.len() as int) =~= es@);
    }
    out
}

/// Appending one raw entry to a listing appends its descriptor exactly when
/// the entry is included, and otherwise changes nothing.
pub proof fn lemma_audio_listing_push(s: Seq<RawDirEntryView>, e: RawDirEntryView)
    ensures
        audio_listing(s.push(e)) == if entry_included(e) {
            audio_listing(s).push(entry_info(e))
        } else {
            audio_listing(s)
        },
{
    reveal(Seq::filter);
    let pred = |x: RawDirEntryView| entry_included(x);
    let f = |x: RawDirEntryView| entry_info(x);
    assert(s.push(e).drop_last() =~= s);
    assert(s.push(e).last() == e);
    if entry_included(e) {
        assert(s.push(e).filter(pred) =~= s.filter(pred).push(e));
        assert(s.filter(pred).push(e).map_values(f) =~= s.filter(pred).map_values(f).push(f(e)));
    } else {
        assert(s.push(e).filter(pred) =~= s.filter(pred));
    }
}

/// Every descriptor a scan reports describes an audio file: its `is_audio`
/// flag is set and its name carries an allow-listed extension. Children
/// that are not audio files are never reported.
pub proof fn lemma_reported_entries_are_audio(es: Seq<RawDirEntryView>, i: int)
    requires
        0 <= i < audio_listing(es).len(),
    ensures
        audio_listing(es)[i].is_audio,
        is_audio_file_name(audio_listing(es)[i].name),
{
    let pred = |x: RawDirEntryView| entry_included(x);
    es.lemma_filter_pred(pred, i);
    assert(audio_listing(es)[i] == entry_info(es.filter(pred)[i]));
}

/// Concatenating two raw listings concatenates their audio descriptors.
pub proof fn lemma_audio_listing_add(a: Seq<RawDirEntryView>, b: Seq<RawDirEntryView>)
    ensures
        audio_listing(a + b) == audio_listing(a) + audio_listing(b),
{
    let pred = |x: RawDirEntryView| entry_included(x);
    let f = |x: RawDirEntryView| entry_info(x);
    Seq::filter_distributes_over_add(a, b, pred);
    assert(audio_listing(a + b) =~= audio_listing(a) + audio_listing(b));
}

/// Taking one entry out of a raw listing takes its descriptor, and nothing
/// else, out of the multiset of audio descriptors.
pub proof fn lemma_audio_listing_remove(s: Seq<RawDirEntryView>, i: int)
    requires
        0 <= i < s.len(),
    ensures
        audio_listing(s).to_multiset() == if entry_included(s[i]) {
            audio_listing(s.remove(i)).to_multiset().insert(entry_info(s[i]))
        } else {
            audio_listing(s.remove(i)).to_multiset()
        },
{
    broadcast use vstd::multiset::group_multiset_axioms;

    let a = s.subrange(0, i);
    let b = s.subrange(i + 1, s.len() as int);
    assert(s =~= a.push(s[i]) + b);
    lemma_audio_listing_add(a.push(s[i]), b);
    lemma_audio_listing_push(a, s[i]);
    lemma_audio_listing_add(a, b);
    let la = audio_listing(a);
    let lb = audio_listing(b);
    vstd::seq_lib::lemma_multiset_commutative(la, lb);
    if entry_included(s[i]) {
        let v = entry_info(s[i]);
        vstd::seq_lib::lemma_multiset_commutative(la.push(v), lb);
        la.to_multiset_ensures();
        assert(la.push(v).to_multiset() =~= la.to_multiset().insert(v));
        assert(la.to_multiset().insert(v).add(lb.to_multiset()) =~= la.to_multiset().add(
            lb.to_multiset(),
        ).insert(v));
    }
}

/// Scanning does not depend on enumeration order: two raw listings that
/// present the same entries, in any order, yield the same collection of
/// audio descriptors — equal as multisets, hence equal as sets.
pub proof fn lemma_scan_order_insensitive(s1: Seq<RawDirEntryView>, s2: Seq<RawDirEntryView>)
    requires
        s1.to_multiset() == s2.to_multiset(),
    ensures
        audio_listing(s1).to_multiset() == audio_listing(s2).to_multiset(),
    decreases s1.len(),
{
    broadcast use vstd::seq_lib::group_to_multiset_ensures;

    if s1.len() == 0 {
        assert(s2.len() == s2.to_multiset().len());
        assert(s2 =~= s1);
    } else {
        let i1 = s1.len() - 1;
        let x = s1[i1];
        assert(s1.contains(x));
        assert(s2.to_multiset().count(x) > 0);
        assert(s2.contains(x));
        let j = choose|j: int| 0 <= j < s2.len() && s2[j] == x;
        let s1d = s1.remove(i1);
        let s2r = s2.remove(j);
        assert(s1d.to_multiset() == s1.to_multiset().remove(x));
        assert(s2r.to_multiset() == s2.to_multiset().remove(x));
        lemma_scan_order_insensitive(s1d, s2r);
        lemma_audio_listing_remove(s1, i1);
        lemma_audio_listing_remove(s2, j);
    }
}

/// What `scan_audio_files` returns for each listing: the `InvalidPath`
/// failure exactly when the path exists and is not a directory; an empty
/// success when the path is missing or its enumeration failed; and
/// otherwise exactly the audio descriptors of the entries, in listing
/// order, each with `is_audio` set.
pub open spec fn scan_spec(
    listing: DirListing,
    r: Result<Vec<AudioFileInfo>, ScanError>,
) -> bool {
    match listing {
        DirListing::Missing => r matches Ok(v) && v@.len() == 0,
        DirListing::NotDirectory => r matches Err(ScanError::InvalidPath),
        DirListing::Unreadable => r matches Ok(v) && v@.len() == 0,
        DirListing::Entries(es) => r matches Ok(v) && info_views(v@) == audio_listing(
            raw_views(es@),
        ),
    }
}

/// Scan one directory listing for audio files.
pub fn scan_audio_files(listing: &DirListing) -> (r: Result<Vec<AudioFileInfo>, ScanError>)
    ensures
        scan_spec(*listing, r),
{
    match listing {
        DirListing::Missing => Ok(Vec::new()),
        DirListing::NotDirectory => Err(ScanError::InvalidPath),
        DirListing::Unreadable => Ok(Vec::new()),
        DirListing::Entries(es) => Ok(collect_audio_files(es)),
    }
}

} // verus!
