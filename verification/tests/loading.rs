use tuimodplayer::loading::{
    classify_archive_entry, extension2_is_supported, extension_is_archive, extension_is_supported,
    get_stem_path, str_eq, EntryAction,
};

#[test]
fn supported_extensions_are_recognised_case_insensitively() {
    assert!(extension_is_supported("song.mod"));
    assert!(extension_is_supported("song.It"));
    assert!(extension_is_supported("dir/sub/tune.S3M"));
    assert!(extension_is_supported("x.mptm"));
    assert!(extension_is_supported("x.669"));
    assert!(!extension_is_supported("song.txt"));
    assert!(!extension_is_supported("song"));
    assert!(!extension_is_supported(""));
}

#[test]
fn a_hidden_file_has_no_extension() {
    assert!(!extension_is_supported(".mod"));
    assert!(!extension_is_supported("dir/.mod"));
    assert!(extension_is_supported("dir/a.mod"));
}

#[test]
fn archives_are_recognised() {
    assert!(extension_is_archive("pack.zip"));
    assert!(extension_is_archive("pack.ZIP"));
    assert!(!extension_is_archive("pack.rar"));
    assert!(!extension_is_archive("zip"));
}

#[test]
fn stems_drop_only_the_extension() {
    assert_eq!(get_stem_path("dir/a.mod").as_deref(), Some("a"));
    assert_eq!(get_stem_path("noext").as_deref(), Some("noext"));
    assert_eq!(get_stem_path("a.mod.zip").as_deref(), Some("a.mod"));
    assert_eq!(get_stem_path(".hidden").as_deref(), Some(".hidden"));
    assert_eq!(get_stem_path("dir/"), None);
    assert_eq!(get_stem_path(""), None);
}

#[test]
fn archived_single_modules_are_spotted_by_their_stem() {
    assert!(extension2_is_supported("song.mod.zip"));
    assert!(extension2_is_supported("song.XM.zip"));
    assert!(!extension2_is_supported("song.zip"));
    assert!(!extension2_is_supported("song.mod"));
}

#[test]
fn archive_entries_are_classified() {
    assert_eq!(classify_archive_entry("m.xm", false), EntryAction::AddModule);
    assert_eq!(classify_archive_entry("m.xm", true), EntryAction::AddModule);
    assert_eq!(
        classify_archive_entry("inner.zip", true),
        EntryAction::DescendArchive
    );
    assert_eq!(
        classify_archive_entry("song.mod.zip", false),
        EntryAction::AddArchivedSingle
    );
    assert_eq!(classify_archive_entry("other.zip", false), EntryAction::Skip);
    assert_eq!(classify_archive_entry("readme.txt", false), EntryAction::Skip);
    assert_eq!(classify_archive_entry("readme.txt", true), EntryAction::Skip);
}

#[test]
fn str_eq_compares_characters() {
    assert!(str_eq("abc", "abc"));
    assert!(!str_eq("abc", "abd"));
    assert!(!str_eq("abc", "ab"));
    assert!(str_eq("", ""));
}
