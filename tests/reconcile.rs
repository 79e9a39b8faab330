use audials_playlist_exporter::paths::{library_dir_name, pick_reconciled, reconcile_candidates, split_components};

fn strings(v: &[&str]) -> Vec<String> {
    v.iter().map(|s| s.to_string()).collect()
}

#[test]
fn splits_on_both_separators() {
    assert_eq!(split_components("C:\\Music\\MyLib/Artist//Song.mp3", true), strings(&["C:", "Music", "MyLib", "Artist", "Song.mp3"]));
    assert_eq!(split_components("/a/./b/", false), strings(&["a", "b"]));
    assert_eq!(split_components("a\\b", false), strings(&["a\\b"]));
    assert!(split_components("", true).is_empty());
}

#[test]
fn library_name_is_last_component() {
    assert_eq!(library_dir_name("/home/user/MyLib"), Some("MyLib".to_string()));
    assert_eq!(library_dir_name("/home/user/MyLib/"), Some("MyLib".to_string()));
    assert_eq!(library_dir_name("/"), None);
    assert_eq!(library_dir_name("/home/.."), None);
}

#[test]
fn nearest_match_is_the_only_candidate() {
    let c = reconcile_candidates("C:\\Music\\MyLib\\Artist\\Song.mp3", "/home/user/MyLib");
    assert_eq!(c, strings(&["/home/user/MyLib/Artist/Song.mp3"]));
    assert_eq!(pick_reconciled(&c, &vec![true]), Some("/home/user/MyLib/Artist/Song.mp3".to_string()));
    assert_eq!(pick_reconciled(&c, &vec![false]), None);
}

#[test]
fn shallower_match_when_nearest_is_missing() {
    let c = reconcile_candidates("C:\\MyLib\\Sub\\MyLib\\Artist\\Song.mp3", "/home/user/MyLib");
    assert_eq!(
        c,
        strings(&["/home/user/MyLib/Artist/Song.mp3", "/home/user/MyLib/Sub/MyLib/Artist/Song.mp3"])
    );
    assert_eq!(pick_reconciled(&c, &vec![false, true]), Some("/home/user/MyLib/Sub/MyLib/Artist/Song.mp3".to_string()));
    assert_eq!(pick_reconciled(&c, &vec![true, true]), Some("/home/user/MyLib/Artist/Song.mp3".to_string()));
    assert_eq!(pick_reconciled(&c, &vec![false, false]), None);
}

#[test]
fn file_directory_itself_is_not_matched() {
    assert!(reconcile_candidates("/x/MyLib/Song.mp3", "/home/user/MyLib").is_empty());
    assert!(reconcile_candidates("Song.mp3", "/home/user/MyLib").is_empty());
}

#[test]
fn root_with_trailing_separator() {
    assert_eq!(
        reconcile_candidates("/Music/MyLib/A/B/x.flac", "/mnt/MyLib/"),
        strings(&["/mnt/MyLib/A/B/x.flac"])
    );
}

#[test]
fn no_candidate_without_library_name() {
    assert!(reconcile_candidates("/Music/MyLib/A/x.mp3", "/").is_empty());
    assert!(reconcile_candidates("/Music/Other/A/x.mp3", "/home/user/MyLib").is_empty());
}
