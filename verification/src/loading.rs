//! File-name rules of the playlist loader: which extensions name a module,
//! which name an archive, and what to do with each entry found inside an
//! archive. Walking directories and reading archives is the application's
//! part; the decisions it acts on are made here.
//!
//! Paths are modelled as plain character strings with `/` as separator:
//! the file name is everything after the last `/`, and the extension is
//! everything after the last `.` of the file name, absent when the name
//! has no `.` past its first character.

use crate::playlist::after_last;
use vstd::prelude::*;

verus! {

/// ASCII case folding of one character.
pub open spec fn lower_char(c: char) -> char {
    if 65 <= c as int <= 90 {
        (c as int + 32) as char
    } else {
        c
    }
}

/// ASCII case folding of a string.
pub open spec fn spec_ascii_lower(s: Seq<char>) -> Seq<char> {
    s.map_values(|c: char| lower_char(c))
}

pub fn ascii_lower_char(c: char) -> (r: char)
    ensures
        r == lower_char(c),
{
    match c {
        'A' => 'a',
        'B' => 'b',
        'C' => 'c',
        'D' => 'd',
        'E' => 'e',
        'F' => 'f',
        'G' => 'g',
        'H' => 'h',
        'I' => 'i',
        'J' => 'j',
        'K' => 'k',
        'L' => 'l',
        'M' => 'm',
        'N' => 'n',
        'O' => 'o',
        'P' => 'p',
        'Q' => 'q',
        'R' => 'r',
        'S' => 's',
        'T' => 't',
        'U' => 'u',
        'V' => 'v',
        'W' => 'w',
        'X' => 'x',
        'Y' => 'y',
        'Z' => 'z',
        _ => c,
    }
}

/// Character-for-character string equality.
pub fn str_eq(a: &str, b: &str) -> (r: bool)
    ensures
        r == (a@ == b@),
{
    let na = a.unicode_len();
    let nb = b.unicode_len();
    if na != nb {
        return false;
    }
    let mut i: usize = 0;
    while i < na
        invariant
            i <= na,
            na == a@.len(),
            na == b@.len(),
            forall|k: int| 0 <= k < i ==> a@[k] == b@[k],
        decreases na - i,
    {
        if a.get_char(i) != b.get_char(i) {
            return false;
        }
        i = i + 1;
    }
    proof {
        assert(a@ =~= b@);
    }
    true
}

/// The extension of a path, if it has one.
pub open spec fn spec_extension(path: Seq<char>) -> Option<Seq<char>> {
    let name = after_last(path, '/');
    let ext = after_last(name, '.');
    if name.len() == 0 {
        None::<Seq<char>>
    } else if ext.len() == name.len() {
        None
    } else if name[0] == '.' && ext.len() == name.len() - 1 {
        None
    } else {
        Some(ext)
    }
}

/// The file name of a path without its extension, if the path names a
/// file at all.
pub open spec fn spec_file_stem(path: Seq<char>) -> Option<Seq<char>> {
    let name = after_last(path, '/');
    if name.len() == 0 {
        None::<Seq<char>>
    } else {
        match spec_extension(path) {
            Some(e) => Some(name.take(name.len() - e.len() - 1)),
            None => Some(name),
        }
    }
}

/// Positions of the file name and of the extension dot within the path.
struct PathScan {
    name_start: usize,
    last_dot: Option<usize>,
    len: usize,
}

/// One pass over the path: where the file name starts, and where its last
/// `.` sits.
fn scan_path(path: &str) -> (r: PathScan)
    ensures
        r.len == path@.len(),
        r.name_start <= r.len,
        r.name_start > 0 ==> path@[r.name_start - 1] == '/',
        forall|k: int| r.name_start <= k < r.len ==> path@[k] != '/',
        match r.last_dot {
            Some(d) => r.name_start <= d < r.len && path@[d as int] == '.' && forall|k: int|
                d < k < r.len ==> path@[k] != '.',
            None => forall|k: int| r.name_start <= k < r.len ==> path@[k] != '.',
        },
{
    let n = path.unicode_len();
    let mut name_start: usize = 0;
    let mut last_dot: Option<usize> = None;
    let mut i: usize = 0;
    while i < n
        invariant
            0 <= name_start <= i <= n,
            n == path@.len(),
            name_start > 0 ==> path@[name_start - 1] == '/',
            forall|k: int| name_start <= k < i ==> path@[k] != '/',
            match last_dot {
                Some(d) => name_start <= d < i && path@[d as int] == '.' && forall|k: int|
                    d < k < i ==> path@[k] != '.',
                None => forall|k: int| name_start <= k < i ==> path@[k] != '.',
            },
        decreases n - i,
    {
        let c = path.get_char(i);
        if c == '/' {
            name_start = i + 1;
            last_dot = None;
        } else if c == '.' {
            last_dot = Some(i);
        }
        i = i + 1;
    }
    PathScan { name_start, last_dot, len: n }
}

/// The extension of a path, ASCII-lowercased, if it has one.
pub fn lower_extension(path: &str) -> (r: Option<String>)
    ensures
        match (r, spec_extension(path@)) {
            (Some(l), Some(e)) => l@ == spec_ascii_lower(e),
            (None, None) => true,
            _ => false,
        },
{
    let scan = scan_path(path);
    let n = scan.len;
    proof {
        lemma_after_last_name(path@, scan.name_start as int);
    }
    match scan.last_dot {
        None => {
            proof {
                crate::playlist::lemma_after_last_is_whole(
                    path@.subrange(scan.name_start as int, n as int),
                    '.',
                );
            }
            None
        },
        Some(d) => {
            if d == scan.name_start {
                proof {
                    lemma_after_last_ext(path@, scan.name_start as int, d as int);
                }
                None
            } else {
                proof {
                    lemma_after_last_ext(path@, scan.name_start as int, d as int);
                }
                let mut out = String::new();
                let mut i: usize = d + 1;
                while i < n
                    invariant
                        d + 1 <= i <= n,
                        n == path@.len(),
                        out@ == spec_ascii_lower(path@.subrange(d + 1, i as int)),
                    decreases n - i,
                {
                    let c = path.get_char(i);
                    crate::text::string_push(&mut out, ascii_lower_char(c));
                    proof {
                        assert(path@.subrange(d + 1, i + 1).drop_last() =~= path@.subrange(
                            d + 1,
                            i as int,
                        ));
                        assert(spec_ascii_lower(path@.subrange(d + 1, i + 1)) =~= spec_ascii_lower(
                            path@.subrange(d + 1, i as int),
                        ).push(lower_char(path@[i as int])));
                    }
                    i = i + 1;
                }
                Some(out)
            }
        },
    }
}

/// The file name (after the last separator) is the scanned suffix.
proof fn lemma_after_last_name(path: Seq<char>, name_start: int)
    requires
        0 <= name_start <= path.len(),
        name_start > 0 ==> path[name_start - 1] == '/',
        forall|k: int| name_start <= k < path.len() ==> path[k] != '/',
    ensures
        after_last(path, '/') == path.subrange(name_start, path.len() as int),
{
    crate::playlist::lemma_after_last_is_suffix(path, '/', name_start);
}

/// Within the file name, the extension is the suffix after the last dot.
proof fn lemma_after_last_ext(path: Seq<char>, name_start: int, d: int)
    requires
        0 <= name_start <= d < path.len(),
        path[d] == '.',
        forall|k: int| d < k < path.len() ==> path[k] != '.',
        forall|k: int| name_start <= k < path.len() ==> path[k] != '/',
    ensures
        after_last(path.subrange(name_start, path.len() as int), '.') == path.subrange(
            d + 1,
            path.len() as int,
        ),
{
    let name = path.subrange(name_start, path.len() as int);
    crate::playlist::lemma_after_last_is_suffix(name, '.', d + 1 - name_start);
    assert(name.subrange(d + 1 - name_start, name.len() as int) =~= path.subrange(
        d + 1,
        path.len() as int,
    ));
}

/// Whether a lowercased extension names a supported module format.
pub open spec fn is_supported_ext(e: Seq<char>) -> bool {
    ||| e == "mptm"@
    ||| e == "mod"@
    ||| e == "s3m"@
    ||| e == "xm"@
    ||| e == "it"@
    ||| e == "669"@
    ||| e == "amf"@
    ||| e == "ams"@
    ||| e == "c67"@
    ||| e == "dbm"@
    ||| e == "digi"@
    ||| e == "dmf"@
    ||| e == "dsm"@
    ||| e == "dsym"@
    ||| e == "dtm"@
    ||| e == "far"@
    ||| e == "fmt"@
    ||| e == "imf"@
    ||| e == "ice"@
    ||| e == "j2b"@
    ||| e == "m15"@
    ||| e == "mdl"@
    ||| e == "med"@
    ||| e == "mms"@
    ||| e == "mt2"@
    ||| e == "mtm"@
    ||| e == "mus"@
    ||| e == "nst"@
    ||| e == "okt"@
    ||| e == "plm"@
    ||| e == "psm"@
    ||| e == "pt36"@
    ||| e == "ptm"@
    ||| e == "sfx"@
    ||| e == "sfx2"@
    ||| e == "st26"@
    ||| e == "stk"@
    ||| e == "stm"@
    ||| e == "stx"@
    ||| e == "stp"@
    ||| e == "symmod"@
    ||| e == "ult"@
    ||| e == "wow"@
    ||| e == "gdm"@
    ||| e == "mo3"@
    ||| e == "oxm"@
    ||| e == "umx"@
    ||| e == "xpk"@
    ||| e == "ppm"@
    ||| e == "mmcmp"@
}

fn ext_in_supported(e: &str) -> (r: bool)
    ensures
        r == is_supported_ext(e@),
{
    str_eq(e, "mptm") || str_eq(e, "mod") || str_eq(e, "s3m") || str_eq(e, "xm") || str_eq(e, "it")
        || str_eq(e, "669") || str_eq(e, "amf") || str_eq(e, "ams") || str_eq(e, "c67") || str_eq(
        e,
        "dbm",
    ) || str_eq(e, "digi") || str_eq(e, "dmf") || str_eq(e, "dsm") || str_eq(e, "dsym") || str_eq(
        e,
        "dtm",
    ) || str_eq(e, "far") || str_eq(e, "fmt") || str_eq(e, "imf") || str_eq(e, "ice") || str_eq(
        e,
        "j2b",
    ) || str_eq(e, "m15") || str_eq(e, "mdl") || str_eq(e, "med") || str_eq(e, "mms") || str_eq(
        e,
        "mt2",
    ) || str_eq(e, "mtm") || str_eq(e, "mus") || str_eq(e, "nst") || str_eq(e, "okt") || str_eq(
        e,
        "plm",
    ) || str_eq(e, "psm") || str_eq(e, "pt36") || str_eq(e, "ptm") || str_eq(e, "sfx") || str_eq(
        e,
        "sfx2",
    ) || str_eq(e, "st26") || str_eq(e, "stk") || str_eq(e, "stm") || str_eq(e, "stx") || str_eq(
        e,
        "stp",
    ) || str_eq(e, "symmod") || str_eq(e, "ult") || str_eq(e, "wow") || str_eq(e, "gdm") || str_eq(
        e,
        "mo3",
    ) || str_eq(e, "oxm") || str_eq(e, "umx") || str_eq(e, "xpk") || str_eq(e, "ppm") || str_eq(
        e,
        "mmcmp",
    )
}

/// Whether the path's extension names a supported module format.
pub open spec fn spec_extension_is_supported(path: Seq<char>) -> bool {
    match spec_extension(path) {
        Some(e) => is_supported_ext(spec_ascii_lower(e)),
        None => false,
    }
}

pub fn extension_is_supported(path: &str) -> (r: bool)
    ensures
        r == spec_extension_is_supported(path@),
{
    match lower_extension(path) {
        Some(e) => ext_in_supported(e.as_str()),
        None => false,
    }
}

/// Whether the path's extension names a supported archive.
pub open spec fn spec_extension_is_archive(path: Seq<char>) -> bool {
    match spec_extension(path) {
        Some(e) => spec_ascii_lower(e) == "zip"@,
        None => false,
    }
}

pub fn extension_is_archive(path: &str) -> (r: bool)
    ensures
        r == spec_extension_is_archive(path@),
{
    match lower_extension(path) {
        Some(e) => str_eq(e.as_str(), "zip"),
        None => false,
    }
}

/// The file name without its extension, as a path of its own.
pub fn get_stem_path(path: &str) -> (r: Option<String>)
    ensures
        match (r, spec_file_stem(path@)) {
            (Some(s), Some(st)) => s@ == st,
            (None, None) => true,
            _ => false,
        },
{
    let scan = scan_path(path);
    let n = scan.len;
    proof {
        lemma_after_last_name(path@, scan.name_start as int);
    }
    if scan.name_start == n {
        return None;
    }
    let end = match scan.last_dot {
        None => {
            proof {
                crate::playlist::lemma_after_last_is_whole(
                    path@.subrange(scan.name_start as int, n as int),
                    '.',
                );
            }
            n
        },
        Some(d) => {
            proof {
                lemma_after_last_ext(path@, scan.name_start as int, d as int);
            }
            if d == scan.name_start {
                n
            } else {
                d
            }
        },
    };
    proof {
        assert(path@.subrange(scan.name_start as int, end as int) =~= path@.subrange(
            scan.name_start as int,
            n as int,
        ).take(end - scan.name_start));
    }
    Some(path.substring_char(scan.name_start, end).to_owned())
}

/// Whether the path's stem in turn carries a supported module extension
/// (the single-module-archive heuristic: `song.mod.zip`).
pub open spec fn spec_extension2_is_supported(path: Seq<char>) -> bool {
    match spec_file_stem(path) {
        Some(st) => spec_extension_is_supported(st),
        None => false,
    }
}

pub fn extension2_is_supported(path: &str) -> (r: bool)
    ensures
        r == spec_extension2_is_supported(path@),
{
    match get_stem_path(path) {
        Some(st) => extension_is_supported(st.as_str()),
        None => false,
    }
}

/// What to do with one entry found inside an archive.
#[derive(Clone, Copy, PartialEq, Eq, Structural, Debug)]
pub enum EntryAction {
    /// The entry is a module: add it to the playlist.
    AddModule,
    /// The entry is an archive and deep search is on: open it and recurse.
    DescendArchive,
    /// The entry is an archive that by its name holds a single module: add
    /// it without opening it.
    AddArchivedSingle,
    /// Anything else is ignored.
    Skip,
}

/// How the loader treats an archive entry of the given name.
pub open spec fn spec_classify_archive_entry(name: Seq<char>, deep: bool) -> EntryAction {
    if spec_extension_is_supported(name) {
        EntryAction::AddModule
    } else if spec_extension_is_archive(name) {
        if deep {
            EntryAction::DescendArchive
        } else if spec_extension2_is_supported(name) {
            EntryAction::AddArchivedSingle
        } else {
            EntryAction::Skip
        }
    } else {
        EntryAction::Skip
    }
}

pub fn classify_archive_entry(name: &str, deep_archive_search: bool) -> (r: EntryAction)
    ensures
        r == spec_classify_archive_entry(name@, deep_archive_search),
{
    if extension_is_supported(name) {
        EntryAction::AddModule
    } else if extension_is_archive(name) {
        if deep_archive_search {
            EntryAction::DescendArchive
        } else if extension2_is_supported(name) {
            EntryAction::AddArchivedSingle
        } else {
            EntryAction::Skip
        }
    } else {
        EntryAction::Skip
    }
}

} // verus!
