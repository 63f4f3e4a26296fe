use tuimodplayer::playlist::{ListView, ModMetadata, ModPath, PlayList, PlayListItem};

fn item(file_path: &str, title: Option<&str>) -> PlayListItem {
    PlayListItem {
        mod_path: ModPath {
            root_path: String::new(),
            file_path: file_path.to_owned(),
            archive_paths: Vec::new(),
            is_archived_single: false,
        },
        metadata: title.map(|t| ModMetadata { title: t.to_owned() }),
    }
}

fn five_item_list() -> PlayList {
    let mut pl = PlayList::new();
    for name in ["a.mod", "b.mod", "c.mod", "d.mod", "e.mod"] {
        pl.add_item(item(name, None));
    }
    pl
}

#[test]
fn navigation_wraps_at_the_ends() {
    // On a 5-item list, from index 4: one forward lands on 0, one
    // backward on 3.
    let mut pl = five_item_list();
    pl.now_playing_in_view = Some(4);
    assert!(pl.goto_next_module(1));
    assert_eq!(pl.next_to_play, Some(0));
    assert!(pl.goto_previous_module(1));
    assert_eq!(pl.next_to_play, Some(3));
}

#[test]
fn navigation_reduces_steps_modulo_length() {
    let mut pl = five_item_list();
    pl.now_playing_in_view = Some(4);
    assert!(pl.goto_next_module(7));
    assert_eq!(pl.next_to_play, Some(1));
    assert!(pl.goto_previous_module(12));
    assert_eq!(pl.next_to_play, Some(2));
}

#[test]
fn navigation_from_nowhere_starts_at_an_end() {
    let mut pl = five_item_list();
    assert!(pl.goto_next_module(1));
    assert_eq!(pl.next_to_play, Some(0));
    let mut pl = five_item_list();
    assert!(pl.goto_previous_module(1));
    assert_eq!(pl.next_to_play, Some(4));
}

#[test]
fn navigation_on_an_empty_list_goes_nowhere() {
    let mut pl = PlayList::new();
    assert!(!pl.goto_next_module(1));
    assert_eq!(pl.next_to_play, None);
    assert!(!pl.goto_previous_module(1));
    assert_eq!(pl.next_to_play, None);
}

#[test]
fn poll_on_an_all_unopenable_list_exhausts_after_len_attempts() {
    // A 3-item playlist where every open fails: at most 3 attempts, then
    // exhaustion.
    let mut pl = PlayList::new();
    for name in ["x.mod", "y.mod", "z.mod"] {
        pl.add_item(item(name, None));
    }
    let (first, mut cursor) = pl.poll_begin();
    assert!(first.is_some());
    let mut attempts = 1;
    let mut next = first;
    while let Some(_idx) = next {
        // The open fails; report it and ask for the next candidate.
        next = pl.poll_failed(&mut cursor);
        if next.is_some() {
            attempts += 1;
        }
    }
    assert_eq!(attempts, 3);
    assert_eq!(cursor.retries, 3);
}

#[test]
fn poll_on_an_empty_list_yields_nothing() {
    let mut pl = PlayList::new();
    let (first, cursor) = pl.poll_begin();
    assert!(first.is_none());
    assert_eq!(cursor.limit, 0);
}

#[test]
fn poll_marks_the_candidate_as_now_playing() {
    let mut pl = five_item_list();
    pl.next_to_play = Some(2);
    let (first, _cursor) = pl.poll_begin();
    assert_eq!(first, Some(2));
    assert_eq!(pl.now_playing_in_view, Some(2));
    assert_eq!(pl.now_playing_in_items, Some(2));
    assert_eq!(pl.next_to_play, None);
}

#[test]
fn get_item_and_len_follow_the_view() {
    let pl = five_item_list();
    assert_eq!(pl.len(), 5);
    assert!(!pl.is_empty());
    assert_eq!(pl.get_item(0).unwrap().mod_path.file_path, "a.mod");
    assert_eq!(pl.get_item(4).unwrap().mod_path.file_path, "e.mod");
    assert!(pl.get_item(5).is_none());
}

#[test]
fn filter_narrows_case_insensitively() {
    let mut pl = PlayList::new();
    pl.add_item(item("songs/Alpha.mod", None));
    pl.add_item(item("songs/beta.mod", None));
    pl.add_item(item("songs/gamma.mod", Some("ALPHA remix")));
    pl.update_filter("ALPHA".to_owned());
    match &pl.view {
        ListView::Filtered { filter_string, filtered_items } => {
            assert_eq!(filter_string, "ALPHA");
            // Item 0 by its display name, item 2 by its metadata title.
            assert_eq!(filtered_items, &vec![0usize, 2usize]);
        }
        ListView::Direct => panic!("expected a filtered view"),
    }
    assert_eq!(pl.len(), 2);
    assert_eq!(pl.get_item(1).unwrap().mod_path.file_path, "songs/gamma.mod");
}

#[test]
fn filter_without_matches_is_empty() {
    let mut pl = five_item_list();
    pl.update_filter("zz".to_owned());
    assert_eq!(pl.len(), 0);
    assert!(pl.is_empty());
}

#[test]
fn empty_filter_restores_the_direct_view() {
    let mut pl = five_item_list();
    pl.update_filter("b".to_owned());
    assert_eq!(pl.len(), 1);
    pl.update_filter(String::new());
    assert_eq!(pl.len(), 5);
    assert!(pl.get_filter_string().is_none());
}

#[test]
fn filter_tracks_the_playing_item() {
    let mut pl = five_item_list();
    pl.now_playing_in_items = Some(2);
    pl.now_playing_in_view = Some(2);
    pl.update_filter("c".to_owned());
    // "c.mod" is the only match, so the playing item is at view index 0.
    assert_eq!(pl.len(), 1);
    assert_eq!(pl.now_playing_in_view, Some(0));
    pl.update_filter("b".to_owned());
    // The playing item does not match: no view position.
    assert_eq!(pl.now_playing_in_view, None);
}

#[test]
fn filter_push_and_pop_edit_the_string() {
    let mut pl = five_item_list();
    pl.update_filter_push('b');
    assert_eq!(pl.get_filter_string().as_deref(), Some("b"));
    assert_eq!(pl.len(), 1);
    pl.update_filter_push('x');
    assert_eq!(pl.get_filter_string().as_deref(), Some("bx"));
    assert_eq!(pl.len(), 0);
    pl.update_filter_pop();
    assert_eq!(pl.get_filter_string().as_deref(), Some("b"));
    assert_eq!(pl.len(), 1);
    pl.update_filter_pop();
    // Popping the last character restores the direct view.
    assert!(pl.get_filter_string().is_none());
    assert_eq!(pl.len(), 5);
}

#[test]
fn display_name_takes_the_file_name() {
    let p = ModPath {
        root_path: String::new(),
        file_path: "music/sub/Track.mod".to_owned(),
        archive_paths: Vec::new(),
        is_archived_single: false,
    };
    assert_eq!(p.display_name(), "Track.mod");
    let q = ModPath {
        root_path: String::new(),
        file_path: "plain.it".to_owned(),
        archive_paths: Vec::new(),
        is_archived_single: false,
    };
    assert_eq!(q.display_name(), "plain.it");
}

#[test]
fn display_name_prefers_the_archive_entry() {
    let p = ModPath {
        root_path: String::new(),
        file_path: "packs/best.zip".to_owned(),
        archive_paths: vec!["inner.zip".to_owned(), "song.xm".to_owned()],
        is_archived_single: false,
    };
    assert_eq!(p.display_name(), "song.xm");
}

#[test]
fn display_full_name_joins_with_colons() {
    let p = ModPath {
        root_path: String::new(),
        file_path: "packs/best.zip".to_owned(),
        archive_paths: vec!["inner.zip".to_owned(), "song.xm".to_owned()],
        is_archived_single: false,
    };
    assert_eq!(p.display_full_name(), "packs/best.zip:inner.zip:song.xm");
    let q = ModPath {
        root_path: String::new(),
        file_path: "plain.it".to_owned(),
        archive_paths: Vec::new(),
        is_archived_single: false,
    };
    assert_eq!(q.display_full_name(), "plain.it");
}

#[test]
fn shuffle_keeps_the_same_items() {
    let mut pl = five_item_list();
    pl.shuffle();
    assert_eq!(pl.items.len(), 5);
    let mut names: Vec<String> = pl
        .items
        .iter()
        .map(|i| i.mod_path.file_path.clone())
        .collect();
    names.sort();
    assert_eq!(names, vec!["a.mod", "b.mod", "c.mod", "d.mod", "e.mod"]);
}
