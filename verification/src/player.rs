//! Immutable metadata of an open session, captured once when it is opened.

use vstd::prelude::*;

verus! {

/// The widest line of a message pane, in characters.
pub open spec fn spec_max_width(lines: Seq<Seq<char>>) -> int
    decreases lines.len(),
{
    if lines.len() == 0 {
        0
    } else {
        vstd::math::max(spec_max_width(lines.drop_last()), lines.last().len() as int)
    }
}

/// Static facts about a loaded module: title, counts, and the message pane
/// (instrument or sample names).
pub struct ModuleInfo {
    pub title: String,
    pub n_orders: usize,
    pub n_patterns: usize,
    pub message: Vec<String>,
    pub message_width: usize,
}

impl ModuleInfo {
    /// Assemble the metadata from the decoder's raw answers: a missing
    /// title becomes "(no title)"; the message pane shows the instrument
    /// names, or the sample names when the module declares no instruments;
    /// the pane width is the widest message line.
    pub fn from_parts(
        title: Option<String>,
        n_orders: usize,
        n_patterns: usize,
        instrument_names: Vec<String>,
        sample_names: Vec<String>,
    ) -> (r: ModuleInfo)
        ensures
            match title {
                Some(t) => r.title == t,
                None => r.title@ == "(no title)"@,
            },
            r.n_orders == n_orders,
            r.n_patterns == n_patterns,
            r.message@ == if instrument_names@.len() > 0 {
                instrument_names@
            } else {
                sample_names@
            },
            r.message_width == spec_max_width(r.message@.map_values(|s: String| s@)),
    {
        let message = if instrument_names.len() > 0 {
            instrument_names
        } else {
            sample_names
        };
        let title = match title {
            Some(t) => t,
            None => "(no title)".to_owned(),
        };
        let message_width = max_line_width(&message);
        ModuleInfo { title, n_orders, n_patterns, message, message_width }
    }
}

/// The widest line of `lines`, in characters; lines longer than the
/// machine's limit are not expected.
pub fn max_line_width(lines: &Vec<String>) -> (r: usize)
    ensures
        r == spec_max_width(lines@.map_values(|s: String| s@)),
{
    let ghost views = lines@.map_values(|s: String| s@);
    let mut w: usize = 0;
    let mut i: usize = 0;
    while i < lines.len()
        invariant
            i <= lines@.len(),
            views == lines@.map_values(|s: String| s@),
            w == spec_max_width(views.take(i as int)),
        decreases lines@.len() - i,
    {
        let lw = lines[i].as_str().unicode_len();
        if lw > w {
            w = lw;
        }
        proof {
            assert(views.take(i + 1).drop_last() =~= views.take(i as int));
            assert(views.take(i + 1).last() == views[i as int]);
        }
        i = i + 1;
    }
    proof {
        assert(views.take(views.len() as int) =~= views);
    }
    w
}

} // verus!
