//! Resolution of the default music-search directories.
//!
//! A profile names a fixed, ordered list of candidate paths. The embedding
//! application probes each candidate for existence and hands the outcomes
//! back; resolution keeps the candidates that exist and falls back to a
//! coarser root — the storage root on mobile, the home directory on
//! desktop — when none of them does.

use vstd::prelude::*;
use vstd::string::StringExecFns;

verus! {

/// The platform profile the application shell was built for.
pub enum PlatformProfile {
    /// Candidates live under the invoking user's home directory.
    Desktop,
    /// Candidates are conventional absolute storage paths.
    Mobile,
}

/// The conventional storage paths probed on a mobile profile, in order.
pub open spec fn mobile_candidates() -> Seq<Seq<char>> {
    seq![
        "/storage/emulated/0/Music"@,
        "/storage/emulated/0/Download"@,
        "/storage/emulated/0/Downloads"@,
        "/storage/emulated/0/DCIM"@,
        "/storage/emulated/0/Documents"@,
        "/sdcard/Music"@,
        "/sdcard/Download"@,
        "/sdcard/Downloads"@,
    ]
}

/// The storage root a mobile profile falls back to.
pub open spec fn mobile_root() -> Seq<char> {
    "/storage/emulated/0"@
}

/// The subdirectories probed under a desktop home directory, in order.
pub open spec fn desktop_candidates(home: Seq<char>) -> Seq<Seq<char>> {
    seq![home + "/Music"@, home + "/Downloads"@, home + "/Documents"@]
}

/// The candidate paths a profile probes: fixed storage paths on mobile;
/// `Music`, `Downloads` and `Documents` under the home directory on
/// desktop, and none at all when no home directory is known there.
pub open spec fn candidate_paths(profile: PlatformProfile, home: Option<Seq<char>>) -> Seq<
    Seq<char>,
> {
    match profile {
        PlatformProfile::Mobile => mobile_candidates(),
        PlatformProfile::Desktop => match home {
            Some(h) => desktop_candidates(h),
            None => Seq::empty(),
        },
    }
}

/// The root a profile falls back to when no candidate exists: the storage
/// root on mobile, the home directory (when known) on desktop.
pub open spec fn fallback_root(profile: PlatformProfile, home: Option<Seq<char>>) -> Option<
    Seq<char>,
> {
    match profile {
        PlatformProfile::Mobile => Some(mobile_root()),
        PlatformProfile::Desktop => home,
    }
}

/// The candidates whose existence probe came back true, in candidate order.
pub open spec fn selected(cands: Seq<Seq<char>>, exists: Seq<bool>) -> Seq<Seq<char>>
    recommends
        cands.len() == exists.len(),
    decreases cands.len(),
{
    if cands.len() == 0 {
        Seq::empty()
    } else {
        let rest = selected(cands.drop_last(), exists.drop_last());
        if exists[cands.len() - 1] {
            rest.push(cands.last())
        } else {
            rest
        }
    }
}

/// The directories a resolution offers: the existing candidates; the
/// fallback root alone when no candidate exists; nothing when there is no
/// root either.
pub open spec fn resolved(
    cands: Seq<Seq<char>>,
    exists: Seq<bool>,
    fallback: Option<Seq<char>>,
) -> Seq<Seq<char>> {
    let sel = selected(cands, exists);
    if sel.len() > 0 {
        sel
    } else {
        match fallback {
            Some(f) => seq![f],
            None => Seq::empty(),
        }
    }
}

/// What a profile offers, given which of its candidate paths exist.
pub open spec fn default_directories(
    profile: PlatformProfile,
    home: Option<Seq<char>>,
    exists: Seq<bool>,
) -> Seq<Seq<char>> {
    resolved(candidate_paths(profile, home), exists, fallback_root(profile, home))
}

/// Whenever any root is determinable — always on mobile, and whenever a
/// home directory is known on desktop — resolution offers at least one
/// directory.
pub proof fn lemma_default_directories_nonempty(
    profile: PlatformProfile,
    home: Option<Seq<char>>,
    exists: Seq<bool>,
)
    requires
        profile is Mobile || home is Some,
    ensures
        default_directories(profile, home, exists).len() > 0,
{
}

/// A home path extended by one of the probed subdirectory suffixes.
fn home_join(home: &String, sub: &str) -> (r: String)
    ensures
        r@ == home@ + sub@,
{
    let s = String::from_str(home.as_str());
    s.concat(sub)
}

/// The candidate paths of a profile, for the embedding application to
/// probe for existence.
pub fn default_directory_candidates(profile: &PlatformProfile, home: &Option<String>) -> (r: Vec<
    String,
>)
    ensures
        r.deep_view() == candidate_paths(*profile, home.deep_view()),
{
    match profile {
        PlatformProfile::Mobile => {
            let mut v: Vec<String> = Vec::new();
            v.push(String::from_str("/storage/emulated/0/Music"));
            v.push(String::from_str("/storage/emulated/0/Download"));
            v.push(String::from_str("/storage/emulated/0/Downloads"));
            v.push(String::from_str("/storage/emulated/0/DCIM"));
            v.push(String::from_str("/storage/emulated/0/Documents"));
            v.push(String::from_str("/sdcard/Music"));
            v.push(String::from_str("/sdcard/Download"));
            v.push(String::from_str("/sdcard/Downloads"));
            proof {
                assert(v.deep_view() =~= mobile_candidates());
            }
            v
        },
        PlatformProfile::Desktop => match home {
            Some(h) => {
                let mut v: Vec<String> = Vec::new();
                v.push(home_join(h, "/Music"));
                v.push(home_join(h, "/Downloads"));
                v.push(home_join(h, "/Documents"));
                proof {
                    assert(v.deep_view() =~= desktop_candidates(h@));
                }
                v
            },
            None => {
                let v: Vec<String> = Vec::new();
                proof {
                    assert(v.deep_view() =~= Seq::<Seq<char>>::empty());
                }
                v
            },
        },
    }
}

/// Keep the candidates whose probe came back true; offer the fallback root
/// alone when none did.
pub fn resolve_directories(cands: &Vec<String>, exists: &Vec<bool>, fallback: Option<String>) -> (r:
    Vec<String>)
    requires
        cands@.len() == exists@.len(),
    ensures
        r.deep_view() == resolved(cands.deep_view(), exists@, fallback.deep_view()),
{
    let n = cands.len();
    let mut out: Vec<String> = Vec::new();
    let mut i: usize = 0;
    while i < n
        invariant
            i <= n,
            n == cands@.len(),
            n == exists@.len(),
            out.deep_view() == selected(cands.deep_view().take(i as int), exists@.take(i as int)),
        decreases n - i,
    {
        let ghost cpre = cands.deep_view().take(i as int);
        let ghost epre = exists@.take(i as int);
        if exists[i] {
            out.push(cands[i].clone());
        }
        proof {
            let cnext = cands.deep_view().take(i + 1 as int);
            let enext = exists@.take(i + 1 as int);
            assert(cnext.drop_last() =~= cpre);
            assert(enext.drop_last() =~= epre);
            assert(cnext.last() == cands.deep_view()[i as int]);
            if exists@[i as int] {
                assert(out.deep_view() =~= selected(cpre, epre).push(cands.deep_view()[i as int]));
            }
            assert(out.deep_view() == selected(cnext, enext));
        }
        i = i + 1;
    }
    proof {
        assert(cands.deep_view().take(n as int) =~= cands.deep_view());
        assert(exists@.take(n as int) =~= exists@);
    }
    if out.len() == 0 {
        match fallback {
            Some(f) => {
                let mut v: Vec<String> = Vec::new();
                v.push(f);
                proof {
                    assert(v.deep_view() =~= seq![f@]);
                }
                v
            },
            None => out,
        }
    } else {
        out
    }
}

/// The default music directories of a profile, given the home directory
/// (where the profile uses one) and the existence-probe outcome for each
/// candidate path, in candidate order.
pub fn get_default_music_directories(
    profile: &PlatformProfile,
    home: Option<String>,
    exists: &Vec<bool>,
) -> (r: Vec<String>)
    requires
        exists@.len() == candidate_paths(*profile, home.deep_view()).len(),
    ensures
        r.deep_view() == default_directories(*profile, home.deep_view(), exists@),
{
    let ghost home0 = home.deep_view();
    let cands = default_directory_candidates(profile, &home);
    let fallback: Option<String> = match profile {
        PlatformProfile::Mobile => Some(String::from_str("/storage/emulated/0")),
        PlatformProfile::Desktop => home,
    };
    proof {
        assert(fallback.deep_view() == fallback_root(*profile, home0));
    }
    resolve_directories(&cands, exists, fallback)
}

} // verus!
