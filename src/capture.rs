//! Naming and selection for one-off captures: timestamped snapshot file
//! names, window labels, and finding a window by part of its title.
use vstd::prelude::*;
use crate::clock::{Timestamp, local_now};
use crate::detector::{lower_of, lowercase};
use crate::text::{contains_seq, contains_str, decimal, join, join_path, push_decimal};

verus! {

/// `<prefix>_<YYYYMMDD_HHMMSS>.png`.
pub open spec fn snapshot_name(prefix: Seq<char>, ts: Timestamp) -> Seq<char> {
    prefix + seq!['_'] + ts.compact() + ".png"@
}

/// `<title> (<width>x<height>)`.
pub open spec fn window_label_of(title: Seq<char>, width: nat, height: nat) -> Seq<char> {
    title + seq![' ', '('] + decimal(width) + seq!['x'] + decimal(height) + seq![')']
}

/// The path of a snapshot taken at `ts` into `output_dir`.
pub fn snapshot_path(output_dir: &str, prefix: &str, ts: &Timestamp) -> (r: String)
    requires
        ts.wf(),
    ensures
        r@ == join_path(output_dir@, snapshot_name(prefix@, *ts)),
{
    let mut name = prefix.to_owned();
    let sep = "_";
    let ext = ".png";
    proof {
        reveal_strlit("_");
    }
    name.append(sep);
    let stamp = ts.to_compact();
    name.append(stamp.as_str());
    name.append(ext);
    assert(name@ =~= snapshot_name(prefix@, *ts));
    join(output_dir, name.as_str())
}

/// The path of a snapshot taken now into `output_dir`; `None` when the clock
/// reports a year without four digits.
pub fn snapshot_path_now(output_dir: &str, prefix: &str) -> (r: Option<String>)
    ensures
        r matches Some(p) ==> exists|ts: Timestamp| ts.wf() && p@ == #[trigger] join_path(output_dir@, snapshot_name(prefix@, ts)),
{
    let ts = local_now();
    if ts.is_valid() {
        Some(snapshot_path(output_dir, prefix, &ts))
    } else {
        None
    }
}

/// A window's title and size, as `<title> (<width>x<height>)`.
pub fn window_label(title: &str, width: u32, height: u32) -> (r: String)
    ensures
        r@ == window_label_of(title@, width as nat, height as nat),
{
    let mut s = title.to_owned();
    let open = " (";
    let times = "x";
    let close = ")";
    proof {
        reveal_strlit(" (");
        reveal_strlit("x");
        reveal_strlit(")");
    }
    s.append(open);
    push_decimal(&mut s, width as u64);
    s.append(times);
    push_decimal(&mut s, height as u64);
    s.append(close);
    assert(s@ =~= window_label_of(title@, width as nat, height as nat));
    s
}

/// The index of the first title that contains `needle`, compared without
/// regard to case.
pub fn find_title(titles: &Vec<String>, needle: &str) -> (r: Option<usize>)
    ensures
        r is None <==> forall|i: int| 0 <= i < titles@.len() ==> !contains_seq(lower_of(#[trigger] titles@[i]@), lower_of(needle@)),
        r matches Some(k) ==> k < titles@.len() && contains_seq(lower_of(titles@[k as int]@), lower_of(needle@))
            && forall|i: int| 0 <= i < k ==> !contains_seq(lower_of(#[trigger] titles@[i]@), lower_of(needle@)),
{
    let folded_needle = lowercase(needle);
    let mut i: usize = 0;
    while i < titles.len()
        invariant
            i <= titles@.len(),
            folded_needle@ == lower_of(needle@),
            forall|k: int| 0 <= k < i ==> !contains_seq(lower_of(#[trigger] titles@[k]@), lower_of(needle@)),
        decreases titles@.len() - i,
    {
        let folded = lowercase(titles[i].as_str());
        if contains_str(folded.as_str(), folded_needle.as_str()) {
            return Some(i);
        }
        i = i + 1;
    }
    None
}

} // verus!
