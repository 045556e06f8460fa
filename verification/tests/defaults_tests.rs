use music_scan::defaults::PlatformProfile;
use music_scan::defaults::default_directory_candidates;
use music_scan::defaults::get_default_music_directories;
use music_scan::defaults::resolve_directories;

#[test]
fn desktop_offers_the_existing_subdirectory() {
    let home = Some("/home/u".to_string());
    let exists = vec![true, false, false];
    let dirs = get_default_music_directories(&PlatformProfile::Desktop, home, &exists);
    assert_eq!(dirs, vec!["/home/u/Music".to_string()]);
}

#[test]
fn desktop_without_home_offers_nothing() {
    let dirs = get_default_music_directories(&PlatformProfile::Desktop, None, &Vec::new());
    assert!(dirs.is_empty());
}

#[test]
fn desktop_candidates_are_the_three_home_subdirectories() {
    let home = Some("/home/u".to_string());
    let cands = default_directory_candidates(&PlatformProfile::Desktop, &home);
    assert_eq!(
        cands,
        vec![
            "/home/u/Music".to_string(),
            "/home/u/Downloads".to_string(),
            "/home/u/Documents".to_string(),
        ]
    );
}

#[test]
fn desktop_falls_back_to_home_when_no_candidate_exists() {
    let home = Some("/home/u".to_string());
    let exists = vec![false, false, false];
    let dirs = get_default_music_directories(&PlatformProfile::Desktop, home, &exists);
    assert_eq!(dirs, vec!["/home/u".to_string()]);
}

#[test]
fn mobile_keeps_only_existing_candidates_in_order() {
    let exists = vec![true, false, true, false, false, false, false, false];
    let dirs = get_default_music_directories(&PlatformProfile::Mobile, None, &exists);
    assert_eq!(
        dirs,
        vec![
            "/storage/emulated/0/Music".to_string(),
            "/storage/emulated/0/Downloads".to_string(),
        ]
    );
}

#[test]
fn mobile_falls_back_to_the_storage_root() {
    let exists = vec![false; 8];
    let dirs = get_default_music_directories(&PlatformProfile::Mobile, None, &exists);
    assert_eq!(dirs, vec!["/storage/emulated/0".to_string()]);
}

#[test]
fn mobile_candidates_are_the_conventional_storage_paths() {
    let cands = default_directory_candidates(&PlatformProfile::Mobile, &None);
    assert_eq!(
        cands,
        vec![
            "/storage/emulated/0/Music".to_string(),
            "/storage/emulated/0/Download".to_string(),
            "/storage/emulated/0/Downloads".to_string(),
            "/storage/emulated/0/DCIM".to_string(),
            "/storage/emulated/0/Documents".to_string(),
            "/sdcard/Music".to_string(),
            "/sdcard/Download".to_string(),
            "/sdcard/Downloads".to_string(),
        ]
    );
}

#[test]
fn resolver_keeps_candidate_order() {
    let cands = vec!["a".to_string(), "b".to_string(), "c".to_string()];
    let exists = vec![true, false, true];
    let dirs = resolve_directories(&cands, &exists, Some("root".to_string()));
    assert_eq!(dirs, vec!["a".to_string(), "c".to_string()]);
}

#[test]
fn resolver_without_any_match_or_fallback_is_empty() {
    let cands = vec!["a".to_string()];
    let exists = vec![false];
    let dirs = resolve_directories(&cands, &exists, None);
    assert!(dirs.is_empty());
}
