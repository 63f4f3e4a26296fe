//! Small arithmetic helpers shared by the playlist cursor and the UI
//! layout: wrap-around index arithmetic, window centring, and the
//! console-style line wrap used by the log pane.

use vstd::prelude::*;

verus! {

/// Compute `(a + b) % m` without overflowing, for `a, b` already reduced
/// modulo `m`.
pub fn add_modulo_unsigned(a: usize, b: usize, m: usize) -> (r: usize)
    requires
        m > 0,
        a < m,
        b < m,
    ensures
        r == (a + b) % (m as int),
        r < m,
{
    if a >= m - b {
        // a + b >= m: subtracting m keeps the result in range without
        // evaluating the overflowing sum.
        proof {
            vstd::arithmetic::div_mod::lemma_mod_sub_multiples_vanish(a + b, m as int);
            vstd::arithmetic::div_mod::lemma_small_mod((a + b - m) as nat, m as nat);
        }
        a - (m - b)
    } else {
        proof {
            vstd::arithmetic::div_mod::lemma_small_mod((a + b) as nat, m as nat);
        }
        a + b
    }
}

/// Compute `(a - b) % m` without underflowing, for `a, b` already reduced
/// modulo `m`.
pub fn sub_modulo_unsigned(a: usize, b: usize, m: usize) -> (r: usize)
    requires
        m > 0,
        a < m,
        b < m,
    ensures
        r == (a - b) % (m as int),
        r < m,
{
    if a >= b {
        proof {
            vstd::arithmetic::div_mod::lemma_small_mod((a - b) as nat, m as nat);
        }
        a - b
    } else {
        proof {
            vstd::arithmetic::div_mod::lemma_mod_add_multiples_vanish(a - b, m as int);
            vstd::arithmetic::div_mod::lemma_small_mod((a - b + m) as nat, m as nat);
        }
        a + (m - b)
    }
}

/// The window offset that centres the selected item: the whole list when
/// it fits, clamped at either end, else the selection in the middle.
pub open spec fn spec_center_region(list_len: int, window_len: int, selected: int) -> int {
    if list_len <= window_len {
        0
    } else if selected <= window_len / 2 {
        0
    } else if list_len - selected <= window_len - window_len / 2 {
        list_len - window_len
    } else {
        selected - window_len / 2
    }
}

/// Given the length of a list, the height of the window and the index of
/// the selected item, find the offset so that the displayed range
/// `offset..offset + window_len` holds the selected item as centrally as
/// the ends allow.
pub fn center_region(list_len: usize, window_len: usize, selected: usize) -> (r: usize)
    requires
        selected < list_len,
    ensures
        r == spec_center_region(list_len as int, window_len as int, selected as int),
        window_len > 0 ==> r <= selected < r + window_len,
{
    if list_len <= window_len {
        0
    } else {
        let half_window = window_len / 2;
        if selected <= half_window {
            0
        } else if list_len - selected <= window_len - half_window {
            list_len - window_len
        } else {
            selected - half_window
        }
    }
}

/// The width of a string when printed on the screen: one column per
/// character (module files are not expected to hold full-width
/// characters).
pub fn screen_width(s: &str) -> (r: usize)
    ensures
        r == s@.len(),
{
    s.unicode_len()
}

/// The concatenation of a list of lines.
pub open spec fn spec_concat(parts: Seq<Seq<char>>) -> Seq<char>
    decreases parts.len(),
{
    if parts.len() == 0 {
        Seq::empty()
    } else {
        spec_concat(parts.drop_last()) + parts.last()
    }
}

/// Wrap one line to a fixed width, oblivious of words, the way a console
/// does: every chunk but the last is exactly `width` characters, the
/// chunks concatenate back to the line, and an empty line yields no
/// chunks.
pub fn force_wrap_line(line: &str, width: usize) -> (r: Vec<String>)
    requires
        width >= 1,
    ensures
        spec_concat(r@.map_values(|s: String| s@)) == line@,
        forall|k: int| 0 <= k < r@.len() ==> (#[trigger] r@[k])@.len() <= width,
        forall|k: int| 0 <= k < r@.len() - 1 ==> (#[trigger] r@[k])@.len() == width,
        r@.len() == 0 <==> line@.len() == 0,
{
    let n = line.unicode_len();
    let mut r: Vec<String> = Vec::new();
    let mut i: usize = 0;
    while i < n
        invariant
            width >= 1,
            n == line@.len(),
            i <= n,
            spec_concat(r@.map_values(|s: String| s@)) == line@.subrange(0, i as int),
            forall|k: int| 0 <= k < r@.len() ==> (#[trigger] r@[k])@.len() <= width,
            forall|k: int| 0 <= k < r@.len() - 1 ==> (#[trigger] r@[k])@.len() == width,
            r@.len() > 0 ==> i > 0,
            i < n ==> i == r@.len() * width,
            r@.len() > 0 ==> r@.last()@.len() == width || i == n,
        decreases n - i,
    {
        let ghost pre = r@.map_values(|s: String| s@);
        let end = if n - i < width {
            n
        } else {
            i + width
        };
        let chunk = line.substring_char(i, end).to_owned();
        r.push(chunk);
        proof {
            let post = r@.map_values(|s: String| s@);
            assert(post.drop_last() =~= pre);
            assert(post.last() == line@.subrange(i as int, end as int));
            assert(line@.subrange(0, i as int) + line@.subrange(i as int, end as int)
                =~= line@.subrange(0, end as int));
            assert(r@.len() * width == (r@.len() - 1) * width + width) by (nonlinear_arith)
                requires
                    r@.len() >= 1,
            ;
        }
        i = end;
    }
    proof {
        assert(line@.subrange(0, n as int) =~= line@);
    }
    r
}

/// The sum of the line counts of records `from..`.
pub open spec fn spec_sum_from(counts: Seq<usize>, from: int) -> int
    decreases counts.len() - from,
{
    if from < 0 || from >= counts.len() {
        0
    } else {
        counts[from] + spec_sum_from(counts, from + 1)
    }
}

/// How many of the newest records fit into a pane of `height` lines:
/// walking from the newest backwards, a record is taken while the total
/// stays within the height — except the newest record, which is always
/// shown even if it alone overflows the pane.
pub fn latest_records_fitting(counts: &Vec<usize>, height: usize) -> (k: usize)
    ensures
        k <= counts@.len(),
        counts@.len() > 0 ==> k >= 1,
        counts@.len() == 0 ==> k == 0,
        k > 1 ==> spec_sum_from(counts@, counts@.len() - k) <= height,
        k < counts@.len() ==> spec_sum_from(counts@, counts@.len() - k - 1) > height,
{
    let n = counts.len();
    if n == 0 {
        return 0;
    }
    let mut k: usize = 1;
    let mut total: usize = counts[n - 1];
    proof {
        assert(spec_sum_from(counts@, n as int) == 0);
        assert(spec_sum_from(counts@, n - 1) == counts@[n - 1] + spec_sum_from(counts@, n as int));
    }
    while k < n
        invariant
            1 <= k <= n,
            n == counts@.len(),
            total == spec_sum_from(counts@, n - k as int),
            k > 1 ==> total <= height,
        decreases n - k,
    {
        let next = counts[n - k - 1];
        if next > usize::MAX - total || total + next > height {
            return k;
        }
        total = total + next;
        k = k + 1;
    }
    k
}

} // verus!
