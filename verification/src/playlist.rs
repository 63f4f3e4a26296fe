//! The playlist: an ordered collection of module references with a play
//! cursor, relative navigation that wraps around the ends, an optional
//! case-insensitive text filter, and the retry discipline that bounds how
//! many open attempts a single poll may make.

use crate::text::{lower_of, lowercase, spec_contains_sub, str_contains, string_pop, string_push};
use rand::seq::SliceRandom;
use vstd::prelude::*;

verus! {

/// Where a module lives: a file, possibly nested inside zip archives.
pub struct ModPath {
    /// The root the search started from.
    pub root_path: String,
    /// The file on disk: the module itself, or the outermost archive.
    pub file_path: String,
    /// Entry names of the nested archives, outermost first; the last one is
    /// the module entry (or the single-module archive).
    pub archive_paths: Vec<String>,
    /// The last entry is itself an archive holding exactly one module.
    pub is_archived_single: bool,
}

/// The characters after the last occurrence of `c`, or all of `s` when `c`
/// does not occur.
pub open spec fn after_last(s: Seq<char>, c: char) -> Seq<char>
    decreases s.len(),
{
    if s.len() == 0 {
        s
    } else if s.last() == c {
        Seq::empty()
    } else {
        after_last(s.drop_last(), c).push(s.last())
    }
}

/// `after_last` is the suffix that starts right behind the last occurrence.
pub proof fn lemma_after_last_is_suffix(s: Seq<char>, c: char, p: int)
    requires
        0 <= p <= s.len(),
        forall|k: int| p <= k < s.len() ==> s[k] != c,
        p > 0 ==> s[p - 1] == c,
    ensures
        after_last(s, c) == s.subrange(p, s.len() as int),
    decreases s.len(),
{
    if s.len() == 0 {
        assert(after_last(s, c) =~= s.subrange(p, s.len() as int));
    } else if s.last() == c {
        assert(p == s.len());
        assert(after_last(s, c) =~= s.subrange(p, s.len() as int));
    } else {
        assert(p < s.len());
        lemma_after_last_is_suffix(s.drop_last(), c, p);
        assert(s.drop_last().subrange(p, s.drop_last().len() as int) =~= s.subrange(
            p,
            s.len() - 1,
        ));
        assert(s.subrange(p, s.len() - 1).push(s.last()) =~= s.subrange(p, s.len() as int));
    }
}

/// When `c` does not occur at all, `after_last` is the whole string.
pub proof fn lemma_after_last_is_whole(s: Seq<char>, c: char)
    requires
        forall|k: int| 0 <= k < s.len() ==> s[k] != c,
    ensures
        after_last(s, c) == s,
{
    lemma_after_last_is_suffix(s, c, 0);
    assert(s.subrange(0, s.len() as int) =~= s);
}

/// The name shown for a path: the last archive entry, or the file name
/// (the part of the path after the last separator).
pub open spec fn spec_display_name(p: ModPath) -> Seq<char> {
    if p.archive_paths@.len() == 0 {
        after_last(p.file_path@, '/')
    } else {
        p.archive_paths@.last()@
    }
}

/// The full name of a path: the file path followed by every archive entry,
/// each preceded by a colon.
pub open spec fn spec_display_full_name_rec(file: Seq<char>, parts: Seq<Seq<char>>) -> Seq<char>
    decreases parts.len(),
{
    if parts.len() == 0 {
        file
    } else {
        spec_display_full_name_rec(file, parts.drop_last()) + seq![':'] + parts.last()
    }
}

pub open spec fn spec_display_full_name(p: ModPath) -> Seq<char> {
    spec_display_full_name_rec(p.file_path@, p.archive_paths@.map_values(|s: String| s@))
}

impl ModPath {
    /// The short name shown in the playlist pane.
    pub fn display_name(&self) -> (r: String)
        ensures
            r@ == spec_display_name(*self),
    {
        if self.archive_paths.len() == 0 {
            let n = self.file_path.as_str().unicode_len();
            let mut start: usize = 0;
            let mut i: usize = 0;
            while i < n
                invariant
                    n == self.file_path@.len(),
                    0 <= start <= i <= n,
                    start > 0 ==> self.file_path@[start - 1] == '/',
                    forall|k: int| start <= k < i ==> self.file_path@[k] != '/',
                decreases n - i,
            {
                if self.file_path.as_str().get_char(i) == '/' {
                    start = i + 1;
                }
                i = i + 1;
            }
            proof {
                lemma_after_last_is_suffix(self.file_path@, '/', start as int);
            }
            self.file_path.as_str().substring_char(start, n).to_owned()
        } else {
            let last = &self.archive_paths[self.archive_paths.len() - 1];
            last.as_str().to_owned()
        }
    }

    /// The full name shown in diagnostics: path plus archive entries.
    pub fn display_full_name(&self) -> (r: String)
        ensures
            r@ == spec_display_full_name(*self),
    {
        let mut r = self.file_path.as_str().to_owned();
        let ghost parts = self.archive_paths@.map_values(|s: String| s@);
        let mut i: usize = 0;
        while i < self.archive_paths.len()
            invariant
                i <= self.archive_paths@.len(),
                parts == self.archive_paths@.map_values(|s: String| s@),
                r@ == spec_display_full_name_rec(self.file_path@, parts.take(i as int)),
            decreases self.archive_paths@.len() - i,
        {
            crate::text::string_push(&mut r, ':');
            crate::text::string_push_str(&mut r, self.archive_paths[i].as_str());
            proof {
                assert(parts.take(i + 1).drop_last() =~= parts.take(i as int));
                assert(parts.take(i + 1).last() == parts[i as int]);
            }
            i = i + 1;
        }
        proof {
            assert(parts.take(parts.len() as int) =~= parts);
        }
        r
    }
}

/// Metadata captured for a playlist entry, shown by the filter.
pub struct ModMetadata {
    pub title: String,
}

/// One entry of the playlist.
pub struct PlayListItem {
    pub mod_path: ModPath,
    pub metadata: Option<ModMetadata>,
}

/// How the playlist is currently viewed: all items, or only those matching
/// a filter string.
pub enum ListView {
    Direct,
    Filtered { filter_string: String, filtered_items: Vec<usize> },
}

/// Whether one item matches a (lowercased) filter: the filter occurs in the
/// lowercased display name, or in the lowercased metadata title.
pub open spec fn item_matches(item: PlayListItem, lower_filter: Seq<char>) -> bool {
    ||| spec_contains_sub(lower_of(spec_display_name(item.mod_path)), lower_filter)
    ||| (item.metadata matches Some(m) && spec_contains_sub(lower_of(m.title@), lower_filter))
}

/// The playlist: items, the view over them, and the play cursors. The
/// `*_in_view` indices point into the current view; `now_playing_in_items`
/// points into `items` itself.
pub struct PlayList {
    pub items: Vec<PlayListItem>,
    pub now_playing_in_items: Option<usize>,
    pub now_playing_in_view: Option<usize>,
    pub next_to_play: Option<usize>,
    pub view: ListView,
}

impl PlayList {
    /// How many items the current view exposes.
    pub open spec fn spec_len(self) -> nat {
        match self.view {
            ListView::Direct => self.items@.len(),
            ListView::Filtered { filtered_items, .. } => filtered_items@.len(),
        }
    }

    /// The items index behind view index `i`.
    pub open spec fn spec_view_index(self, i: int) -> int {
        match self.view {
            ListView::Direct => i,
            ListView::Filtered { filtered_items, .. } => filtered_items@[i] as int,
        }
    }

    /// Every view index resolves to an existing item, and every cursor is in
    /// range of what it indexes.
    pub open spec fn wf(self) -> bool {
        &&& match self.view {
            ListView::Direct => true,
            ListView::Filtered { filtered_items, .. } => {
                &&& forall|k: int|
                    0 <= k < filtered_items@.len() ==> (#[trigger] filtered_items@[k])
                        < self.items@.len()
                &&& forall|k1: int, k2: int|
                    0 <= k1 < k2 < filtered_items@.len() ==> (#[trigger] filtered_items@[k1]) < (
                    #[trigger] filtered_items@[k2])
            },
        }
        &&& match self.now_playing_in_view {
            Some(n) => n < self.spec_len(),
            None => true,
        }
        &&& match self.next_to_play {
            Some(n) => n < self.spec_len(),
            None => true,
        }
        &&& match self.now_playing_in_items {
            Some(n) => n < self.items@.len(),
            None => true,
        }
    }

    pub fn new() -> (r: PlayList)
        ensures
            r.items@.len() == 0,
            r.now_playing_in_items is None,
            r.now_playing_in_view is None,
            r.next_to_play is None,
            r.view is Direct,
            r.wf(),
    {
        PlayList {
            items: Vec::new(),
            now_playing_in_items: None,
            now_playing_in_view: None,
            next_to_play: None,
            view: ListView::Direct,
        }
    }

    pub fn len(&self) -> (r: usize)
        ensures
            r == self.spec_len(),
    {
        match &self.view {
            ListView::Direct => self.items.len(),
            ListView::Filtered { filtered_items, .. } => filtered_items.len(),
        }
    }

    pub fn is_empty(&self) -> (r: bool)
        ensures
            r == (self.spec_len() == 0),
    {
        self.len() == 0
    }

    /// The item at view index `i`, or `None` past the end of the view.
    pub fn get_item(&self, i: usize) -> (r: Option<&PlayListItem>)
        requires
            self.wf(),
        ensures
            match r {
                Some(item) => i < self.spec_len() && *item == self.items@[self.spec_view_index(
                    i as int,
                )],
                None => i >= self.spec_len(),
            },
    {
        match &self.view {
            ListView::Direct => {
                if i < self.items.len() {
                    Some(&self.items[i])
                } else {
                    None
                }
            },
            ListView::Filtered { filtered_items, .. } => {
                if i < filtered_items.len() {
                    let j = filtered_items[i];
                    Some(&self.items[j])
                } else {
                    None
                }
            },
        }
    }

    /// The items index behind view index `i`.
    fn view_index_to_items_index(&self, i: usize) -> (r: usize)
        requires
            self.wf(),
            i < self.spec_len(),
        ensures
            r == self.spec_view_index(i as int),
            r < self.items@.len(),
    {
        match &self.view {
            ListView::Direct => i,
            ListView::Filtered { filtered_items, .. } => filtered_items[i],
        }
    }

    /// The active filter string, if the view is filtered.
    pub fn get_filter_string(&self) -> (r: Option<String>)
        ensures
            match self.view {
                ListView::Direct => r is None,
                ListView::Filtered { filter_string, .. } => r matches Some(s) && s@
                    == filter_string@,
            },
    {
        match &self.view {
            ListView::Direct => None,
            ListView::Filtered { filter_string, .. } => Some(filter_string.clone()),
        }
    }

    /// Append an item; the view and the cursors are untouched.
    pub fn add_item(&mut self, item: PlayListItem)
        requires
            old(self).wf(),
        ensures
            final(self).items@ == old(self).items@.push(item),
            final(self).view == old(self).view,
            final(self).now_playing_in_items == old(self).now_playing_in_items,
            final(self).now_playing_in_view == old(self).now_playing_in_view,
            final(self).next_to_play == old(self).next_to_play,
            final(self).wf(),
    {
        self.items.push(item);
    }
}

/// Where relative navigation lands: unchanged sizes, arithmetic modulo the
/// view length. From nowhere, forward starts at the head and backward at
/// the tail.
pub open spec fn spec_move_target(
    len: nat,
    now: Option<usize>,
    steps: nat,
    forward: bool,
) -> Option<usize> {
    if len == 0 {
        None
    } else {
        match now {
            Some(n) => Some(
                if forward {
                    ((n + steps % len) % len as int) as usize
                } else {
                    ((n - steps % len) % len as int) as usize
                },
            ),
            None => Some(
                if forward {
                    0usize
                } else {
                    (len - 1) as usize
                },
            ),
        }
    }
}

enum MoveDir {
    Forward,
    Backward,
}

impl PlayList {
    fn move_rel(&mut self, steps: usize, dir: MoveDir) -> (r: bool)
        requires
            old(self).wf(),
        ensures
            final(self).items == old(self).items,
            final(self).view == old(self).view,
            final(self).now_playing_in_items == old(self).now_playing_in_items,
            final(self).now_playing_in_view == old(self).now_playing_in_view,
            final(self).next_to_play == spec_move_target(
                old(self).spec_len(),
                old(self).now_playing_in_view,
                steps as nat,
                dir is Forward,
            ),
            r == (final(self).next_to_play is Some),
            final(self).wf(),
    {
        let maybe_next: Option<usize> = if self.is_empty() {
            None
        } else {
            let len = self.len();
            match self.now_playing_in_view {
                Some(n) => {
                    let b = steps % len;
                    let result = match dir {
                        MoveDir::Forward => crate::util::add_modulo_unsigned(n, b, len),
                        MoveDir::Backward => crate::util::sub_modulo_unsigned(n, b, len),
                    };
                    Some(result)
                },
                None => {
                    let result = match dir {
                        MoveDir::Forward => 0usize,
                        MoveDir::Backward => len - 1,
                    };
                    Some(result)
                },
            }
        };
        self.next_to_play = maybe_next;
        match self.next_to_play {
            Some(_) => true,
            None => false,
        }
    }

    /// Aim the play cursor `steps` items forward, wrapping at the end.
    pub fn goto_next_module(&mut self, steps: usize) -> (r: bool)
        requires
            old(self).wf(),
        ensures
            final(self).items == old(self).items,
            final(self).view == old(self).view,
            final(self).now_playing_in_items == old(self).now_playing_in_items,
            final(self).now_playing_in_view == old(self).now_playing_in_view,
            final(self).next_to_play == spec_move_target(
                old(self).spec_len(),
                old(self).now_playing_in_view,
                steps as nat,
                true,
            ),
            r == (final(self).next_to_play is Some),
            final(self).wf(),
    {
        self.move_rel(steps, MoveDir::Forward)
    }

    /// Aim the play cursor `steps` items backward, wrapping at the start.
    pub fn goto_previous_module(&mut self, steps: usize) -> (r: bool)
        requires
            old(self).wf(),
        ensures
            final(self).items == old(self).items,
            final(self).view == old(self).view,
            final(self).now_playing_in_items == old(self).now_playing_in_items,
            final(self).now_playing_in_view == old(self).now_playing_in_view,
            final(self).next_to_play == spec_move_target(
                old(self).spec_len(),
                old(self).now_playing_in_view,
                steps as nat,
                false,
            ),
            r == (final(self).next_to_play is Some),
            final(self).wf(),
    {
        self.move_rel(steps, MoveDir::Backward)
    }
}

/// The retry budget of one poll: how many attempts have failed, out of how
/// many the playlist offers.
pub struct PollCursor {
    pub retries: usize,
    pub limit: usize,
}

/// Whether a poll may still hand out another candidate.
pub open spec fn poll_continues(retries: nat, limit: nat) -> bool {
    retries < limit
}

/// A poll makes at most `limit` open attempts before it reports
/// exhaustion: the first attempt comes from `poll_begin`, every further one
/// from `poll_failed`, which raises the failure count by one and hands out
/// a candidate only while the count is below the limit. So with `failures`
/// failures recorded the poll has made at most `failures + 1 <= limit`
/// attempts, and from `limit` failures on it yields exhaustion.
pub proof fn lemma_poll_attempts_bounded(limit: nat, failures: nat)
    ensures
        poll_continues(failures, limit) ==> failures + 1 <= limit,
        failures >= limit ==> !poll_continues(failures, limit),
{
}

impl PlayList {
    /// Start a poll: pick the aimed-at candidate (aiming one forward first
    /// if nothing is aimed at), mark it as now playing, and hand out its
    /// view index — or report that the view is empty.
    pub fn poll_begin(&mut self) -> (r: (Option<usize>, PollCursor))
        requires
            old(self).wf(),
        ensures
            final(self).items == old(self).items,
            final(self).view == old(self).view,
            final(self).wf(),
            r.1.retries == 0,
            r.1.limit == old(self).spec_len(),
            ({
                let cand = if old(self).next_to_play is Some {
                    old(self).next_to_play
                } else {
                    spec_move_target(old(self).spec_len(), old(self).now_playing_in_view, 1, true)
                };
                match cand {
                    Some(idx) => {
                        &&& r.0 == Some(idx)
                        &&& idx < old(self).spec_len()
                        &&& final(self).next_to_play is None
                        &&& final(self).now_playing_in_view == Some(idx)
                        &&& final(self).now_playing_in_items == Some(
                            old(self).spec_view_index(idx as int) as usize,
                        )
                    },
                    None => {
                        &&& r.0 is None
                        &&& old(self).spec_len() == 0
                        &&& final(self).next_to_play is None
                        &&& final(self).now_playing_in_view == old(self).now_playing_in_view
                        &&& final(self).now_playing_in_items == old(self).now_playing_in_items
                    },
                }
            }),
    {
        let limit = self.len();
        if self.next_to_play.is_none() {
            self.goto_next_module(1);
        }
        let cursor = PollCursor { retries: 0, limit };
        match self.next_to_play {
            Some(idx) => {
                self.next_to_play = None;
                self.now_playing_in_view = Some(idx);
                let items_idx = self.view_index_to_items_index(idx);
                self.now_playing_in_items = Some(items_idx);
                (Some(idx), cursor)
            },
            None => {
                self.next_to_play = None;
                (None, cursor)
            },
        }
    }

    /// Record that the current candidate failed to open and aim one item
    /// forward; hand out the next candidate, or `None` once as many
    /// attempts have failed as the view has items.
    pub fn poll_failed(&mut self, cur: &mut PollCursor) -> (r: Option<usize>)
        requires
            old(self).wf(),
            old(cur).retries < old(cur).limit,
            old(cur).limit == old(self).spec_len(),
        ensures
            final(self).items == old(self).items,
            final(self).view == old(self).view,
            final(self).wf(),
            final(cur).retries == old(cur).retries + 1,
            final(cur).limit == old(cur).limit,
            (r is Some) == poll_continues(final(cur).retries as nat, final(cur).limit as nat),
            match r {
                Some(idx) => {
                    &&& idx < old(self).spec_len()
                    &&& Some(idx) == spec_move_target(
                        old(self).spec_len(),
                        old(self).now_playing_in_view,
                        1,
                        true,
                    )
                    &&& final(self).next_to_play is None
                    &&& final(self).now_playing_in_view == Some(idx)
                    &&& final(self).now_playing_in_items == Some(
                        old(self).spec_view_index(idx as int) as usize,
                    )
                },
                None => {
                    &&& final(self).next_to_play == old(self).next_to_play
                    &&& final(self).now_playing_in_view == old(self).now_playing_in_view
                    &&& final(self).now_playing_in_items == old(self).now_playing_in_items
                },
            },
    {
        cur.retries = cur.retries + 1;
        if cur.retries >= cur.limit {
            return None;
        }
        self.goto_next_module(1);
        match self.next_to_play {
            Some(idx) => {
                self.next_to_play = None;
                self.now_playing_in_view = Some(idx);
                let items_idx = self.view_index_to_items_index(idx);
                self.now_playing_in_items = Some(items_idx);
                Some(idx)
            },
            None => {
                // Unreachable: the view is nonempty, so navigation always
                // lands somewhere.
                None
            },
        }
    }
}

/// In a strictly increasing sequence every entry is at least its index, so
/// a strictly increasing sequence of indices below `bound` has at most
/// `bound` entries.
proof fn lemma_increasing_index_lb(fi: Seq<usize>, k: int)
    requires
        0 <= k < fi.len(),
        forall|k1: int, k2: int| 0 <= k1 < k2 < fi.len() ==> (#[trigger] fi[k1]) < (#[trigger] fi[k2]),
    ensures
        fi[k] >= k,
    decreases k,
{
    if k > 0 {
        lemma_increasing_index_lb(fi, k - 1);
    }
}

/// A filtered view is never longer than the item list it selects from.
pub proof fn lemma_view_len_le_items(pl: PlayList)
    requires
        pl.wf(),
    ensures
        pl.spec_len() <= pl.items@.len(),
{
    match pl.view {
        ListView::Direct => {},
        ListView::Filtered { filtered_items, .. } => {
            let fi = filtered_items@;
            if fi.len() > 0 {
                lemma_increasing_index_lb(fi, fi.len() - 1);
            }
        },
    }
}

/// The filter string the view currently applies (empty for the direct
/// view).
pub open spec fn spec_filter_of(pl: PlayList) -> Seq<char> {
    match pl.view {
        ListView::Direct => Seq::empty(),
        ListView::Filtered { filter_string, .. } => filter_string@,
    }
}

/// The relation between a playlist and its state after the filter was set
/// to `filter`: the items and the in-items cursor are untouched; an empty
/// filter restores the direct view; a non-empty filter selects exactly the
/// matching items, in order, and re-derives the view cursors. A pending
/// `next_to_play` survives only while it stays inside the new view.
pub open spec fn filter_applied(pre: PlayList, post: PlayList, filter: Seq<char>) -> bool {
    &&& post.items == pre.items
    &&& post.now_playing_in_items == pre.now_playing_in_items
    &&& if filter.len() == 0 {
        &&& post.view is Direct
        &&& post.now_playing_in_view == pre.now_playing_in_items
        &&& post.next_to_play == pre.next_to_play
    } else {
        match post.view {
            ListView::Filtered { filter_string, filtered_items } => {
                let fi = filtered_items@;
                &&& filter_string@ == filter
                &&& forall|k: int|
                    0 <= k < fi.len() ==> (#[trigger] fi[k]) < pre.items@.len() && item_matches(
                        pre.items@[fi[k] as int],
                        lower_of(filter),
                    )
                &&& forall|idx: int|
                    0 <= idx < pre.items@.len() && item_matches(
                        #[trigger] pre.items@[idx],
                        lower_of(filter),
                    ) ==> fi.contains(idx as usize)
                &&& forall|k1: int, k2: int|
                    0 <= k1 < k2 < fi.len() ==> (#[trigger] fi[k1]) < (#[trigger] fi[k2])
                &&& match pre.now_playing_in_items {
                    Some(ii) => match post.now_playing_in_view {
                        Some(k) => 0 <= k < fi.len() && fi[k as int] == ii,
                        None => !fi.contains(ii),
                    },
                    None => post.now_playing_in_view is None,
                }
                &&& post.next_to_play == (match pre.next_to_play {
                    Some(n) => if n < fi.len() {
                        Some(n)
                    } else {
                        None::<usize>
                    },
                    None => None::<usize>,
                })
            },
            ListView::Direct => false,
        }
    }
}

/// Whether `item` matches the lowercased filter `lower`.
fn matches_lower(item: &PlayListItem, lower: &String) -> (r: bool)
    ensures
        r == item_matches(*item, lower@),
{
    let name = item.mod_path.display_name();
    let lname = lowercase(name.as_str());
    if str_contains(lname.as_str(), lower.as_str()) {
        true
    } else {
        match &item.metadata {
            Some(m) => {
                let lt = lowercase(m.title.as_str());
                str_contains(lt.as_str(), lower.as_str())
            },
            None => false,
        }
    }
}

/// The index of `x` in `v`, if it occurs.
fn position_of(v: &Vec<usize>, x: usize) -> (r: Option<usize>)
    ensures
        match r {
            Some(k) => k < v@.len() && v@[k as int] == x,
            None => !v@.contains(x),
        },
{
    let mut i: usize = 0;
    while i < v.len()
        invariant
            i <= v@.len(),
            forall|k: int| 0 <= k < i ==> v@[k] != x,
        decreases v@.len() - i,
    {
        if v[i] == x {
            return Some(i);
        }
        i = i + 1;
    }
    None
}

impl PlayList {
    /// Replace the filter: an empty string restores the direct view, any
    /// other narrows the view to the items whose display name or metadata
    /// title contains the string, case-insensitively.
    pub fn update_filter(&mut self, string: String)
        requires
            old(self).wf(),
        ensures
            filter_applied(*old(self), *final(self), string@),
            final(self).wf(),
    {
        if string.as_str().is_empty() {
            proof {
                lemma_view_len_le_items(*self);
            }
            self.view = ListView::Direct;
            self.now_playing_in_view = self.now_playing_in_items;
        } else {
            let lower = lowercase(string.as_str());
            let mut filtered_items: Vec<usize> = Vec::new();
            let mut i: usize = 0;
            while i < self.items.len()
                invariant
                    i <= self.items@.len(),
                    lower@ == lower_of(string@),
                    forall|k: int|
                        0 <= k < filtered_items@.len() ==> (#[trigger] filtered_items@[k]) < i
                            && item_matches(
                            self.items@[filtered_items@[k] as int],
                            lower_of(string@),
                        ),
                    forall|idx: int|
                        0 <= idx < i && item_matches(
                            #[trigger] self.items@[idx],
                            lower_of(string@),
                        ) ==> filtered_items@.contains(idx as usize),
                    forall|k1: int, k2: int|
                        0 <= k1 < k2 < filtered_items@.len() ==> (#[trigger] filtered_items@[k1])
                            < (#[trigger] filtered_items@[k2]),
                decreases self.items@.len() - i,
            {
                let ghost pre = filtered_items@;
                if matches_lower(&self.items[i], &lower) {
                    filtered_items.push(i);
                    proof {
                        assert(filtered_items@ == pre.push(i));
                        assert(filtered_items@[pre.len() as int] == i);
                        assert(filtered_items@.contains(i));
                        assert forall|idx: int|
                            0 <= idx < i + 1 && item_matches(
                                self.items@[idx],
                                lower_of(string@),
                            ) implies filtered_items@.contains(idx as usize) by {
                            if idx < i {
                                let k = choose|k: int| 0 <= k < pre.len() && pre[k] == idx as usize;
                                assert(filtered_items@[k] == idx as usize);
                            }
                        }
                    }
                }
                i = i + 1;
            }
            let new_npv = match self.now_playing_in_items {
                Some(ii) => position_of(&filtered_items, ii),
                None => None,
            };
            let new_next = match self.next_to_play {
                Some(n) => if n < filtered_items.len() {
                    Some(n)
                } else {
                    None
                },
                None => None,
            };
            self.next_to_play = new_next;
            self.now_playing_in_view = new_npv;
            self.view = ListView::Filtered { filter_string: string, filtered_items };
        }
    }

    /// Append one character to the filter (starting one from the direct
    /// view) and re-apply it.
    pub fn update_filter_push(&mut self, ch: char)
        requires
            old(self).wf(),
        ensures
            filter_applied(*old(self), *final(self), spec_filter_of(*old(self)).push(ch)),
            final(self).wf(),
    {
        let mut new_filter: String = match &self.view {
            ListView::Direct => String::new(),
            ListView::Filtered { filter_string, .. } => filter_string.clone(),
        };
        string_push(&mut new_filter, ch);
        proof {
            assert(new_filter@ =~= spec_filter_of(*self).push(ch));
        }
        self.update_filter(new_filter);
    }

    /// Drop the last character of the filter and re-apply it; on the direct
    /// view this does nothing.
    pub fn update_filter_pop(&mut self)
        requires
            old(self).wf(),
        ensures
            old(self).view is Direct ==> *final(self) == *old(self),
            old(self).view is Filtered ==> filter_applied(
                *old(self),
                *final(self),
                if spec_filter_of(*old(self)).len() > 0 {
                    spec_filter_of(*old(self)).drop_last()
                } else {
                    Seq::empty()
                },
            ),
            final(self).wf(),
    {
        let is_filtered = match &self.view {
            ListView::Direct => false,
            ListView::Filtered { .. } => true,
        };
        if !is_filtered {
            return ;
        }
        let mut new_filter: String = match &self.view {
            ListView::Direct => String::new(),
            ListView::Filtered { filter_string, .. } => filter_string.clone(),
        };
        string_pop(&mut new_filter);
        self.update_filter(new_filter);
    }
}

#[verifier::external_type_specification]
#[verifier::external_body]
pub struct ExThreadRng(rand::rngs::ThreadRng);

/// Relies on `rand::rng`: a handle to the thread-local random generator.
#[verifier::external_body]
fn fresh_rng() -> rand::rngs::ThreadRng {
    rand::rng()
}

/// Relies on rand's `SliceRandom::shuffle`: it permutes the slice in place,
/// so the items are the same multiset in a new order.
#[verifier::external_body]
fn shuffle_items(items: &mut Vec<PlayListItem>, rng: &mut rand::rngs::ThreadRng)
    ensures
        final(items)@.to_multiset() == old(items)@.to_multiset(),
        final(items)@.len() == old(items)@.len(),
{
    items.as_mut_slice().shuffle(rng)
}

impl PlayList {
    /// Put the items in a random order. The view and the cursors keep their
    /// numeric positions and now refer to whatever item landed there.
    pub fn shuffle(&mut self)
        requires
            old(self).wf(),
        ensures
            final(self).items@.to_multiset() == old(self).items@.to_multiset(),
            final(self).items@.len() == old(self).items@.len(),
            final(self).view == old(self).view,
            final(self).now_playing_in_items == old(self).now_playing_in_items,
            final(self).now_playing_in_view == old(self).now_playing_in_view,
            final(self).next_to_play == old(self).next_to_play,
            final(self).wf(),
    {
        let mut rng = fresh_rng();
        shuffle_items(&mut self.items, &mut rng);
    }
}

} // verus!
