//! The aggregator and reporter: grand totals over the retained components
//! plus the recycle-bin figures, and the plain-text accounting document.
//! Byte-size labels are presentation values supplied by the caller; the
//! counts, the totals and the document structure are computed and pinned
//! here.

use vstd::prelude::*;

use crate::component::TempComponent;
use crate::component::sat64;
use crate::paths::join_path;
use crate::paths::spec_join;

verus! {

/// The decimal digit for one value below ten.
pub open spec fn digit_char(d: int) -> char {
    if d == 0 {
        '0'
    } else if d == 1 {
        '1'
    } else if d == 2 {
        '2'
    } else if d == 3 {
        '3'
    } else if d == 4 {
        '4'
    } else if d == 5 {
        '5'
    } else if d == 6 {
        '6'
    } else if d == 7 {
        '7'
    } else if d == 8 {
        '8'
    } else {
        '9'
    }
}

/// The decimal spelling of a number, most significant digit first, with
/// no leading zeros (except for zero itself).
pub open spec fn dec_of(n: nat) -> Seq<char>
    decreases n,
{
    if n < 10 {
        seq![digit_char(n as int)]
    } else {
        dec_of(n / 10).push(digit_char((n % 10) as int))
    }
}

fn digit_str(d: u64) -> (r: &'static str)
    requires
        d < 10,
    ensures
        r@ == seq![digit_char(d as int)],
{
    proof {
        reveal_strlit("0");
        reveal_strlit("1");
        reveal_strlit("2");
        reveal_strlit("3");
        reveal_strlit("4");
        reveal_strlit("5");
        reveal_strlit("6");
        reveal_strlit("7");
        reveal_strlit("8");
        reveal_strlit("9");
    }
    let r = if d == 0 {
        "0"
    } else if d == 1 {
        "1"
    } else if d == 2 {
        "2"
    } else if d == 3 {
        "3"
    } else if d == 4 {
        "4"
    } else if d == 5 {
        "5"
    } else if d == 6 {
        "6"
    } else if d == 7 {
        "7"
    } else if d == 8 {
        "8"
    } else {
        "9"
    };
    proof {
        assert(r@ =~= seq![digit_char(d as int)]);
    }
    r
}

/// The decimal spelling of `n`.
pub fn u64_to_dec(n: u64) -> (r: String)
    ensures
        r@ == dec_of(n as nat),
    decreases n,
{
    if n < 10 {
        String::from_str(digit_str(n))
    } else {
        let mut s = u64_to_dec(n / 10);
        s.append(digit_str(n % 10));
        proof {
            assert(s@ =~= dec_of(n as nat));
        }
        s
    }
}

/// The ideal sum of the file counts of a sequence of components.
pub open spec fn sum_counts(s: Seq<TempComponent>) -> int
    decreases s.len(),
{
    if s.len() == 0 {
        0
    } else {
        sum_counts(s.drop_last()) + s.last().count
    }
}

/// The ideal sum of the byte totals of a sequence of components.
pub open spec fn sum_bytes(s: Seq<TempComponent>) -> int
    decreases s.len(),
{
    if s.len() == 0 {
        0
    } else {
        sum_bytes(s.drop_last()) + s.last().total_bytes
    }
}

pub proof fn lemma_sums_nonneg(s: Seq<TempComponent>)
    ensures
        sum_counts(s) >= 0,
        sum_bytes(s) >= 0,
    decreases s.len(),
{
    if s.len() > 0 {
        lemma_sums_nonneg(s.drop_last());
    }
}

/// The grand total: the sum over every retained component plus the
/// recycle bin's own figures, clipped only at what a `u64` can hold.
/// The grand total's count is exactly the sum of the components' counts
/// plus the recycle-bin count, and likewise for bytes, whenever those
/// sums fit.
pub fn aggregate_totals(components: &Vec<TempComponent>, recycle_count: u64, recycle_bytes: u64)
    -> (r: (u64, u64))
    ensures
        r.0 == sat64(sum_counts(components@) + recycle_count),
        r.1 == sat64(sum_bytes(components@) + recycle_bytes),
{
    let n = components.len();
    let mut total_count: u64 = 0;
    let mut total_bytes: u64 = 0;
    for i in 0..n
        invariant
            n == components@.len(),
            total_count == sat64(sum_counts(components@.subrange(0, i as int))),
            total_bytes == sat64(sum_bytes(components@.subrange(0, i as int))),
    {
        proof {
            let pre = components@.subrange(0, i as int);
            assert(components@.subrange(0, i + 1 as int).drop_last() =~= pre);
            assert(components@.subrange(0, i + 1 as int).last() == components@[i as int]);
            lemma_sums_nonneg(pre);
        }
        total_count = total_count.saturating_add(components[i].count);
        total_bytes = total_bytes.saturating_add(components[i].total_bytes);
    }
    proof {
        assert(components@.subrange(0, n as int) =~= components@);
        lemma_sums_nonneg(components@);
    }
    (total_count.saturating_add(recycle_count), total_bytes.saturating_add(recycle_bytes))
}

/// The report's first two lines: product banner and timestamp.
pub open spec fn spec_header(date_label: Seq<char>) -> Seq<char> {
    "KpTemp v1.4 by kernel-panik\r\n"@ + "Date: "@ + date_label + "\r\n\r\n"@
}

/// One per-component line of the report.
pub open spec fn spec_component_line(path: Seq<char>, count: u64, size_label: Seq<char>)
    -> Seq<char> {
    path + " : "@ + dec_of(count as nat) + " files => "@ + size_label + " deleted\r\n"@
}

/// The per-component lines, in working-set order.
pub open spec fn spec_lines(cs: Seq<TempComponent>, labels: Seq<Seq<char>>) -> Seq<char>
    decreases cs.len(),
{
    if cs.len() == 0 {
        Seq::empty()
    } else {
        spec_lines(cs.drop_last(), labels.drop_last()) + spec_component_line(
            cs.last().path@,
            cs.last().count,
            labels.last(),
        )
    }
}

/// The recycle-bin line, followed by the blank line before the total.
pub open spec fn spec_recycle_line(count: u64, size_label: Seq<char>) -> Seq<char> {
    "Recycle Bin : "@ + dec_of(count as nat) + " files => "@ + size_label + " deleted\r\n\r\n"@
}

/// The grand-total line.
pub open spec fn spec_total_line(count: u64, size_label: Seq<char>) -> Seq<char> {
    "Total : "@ + dec_of(count as nat) + " files => "@ + size_label + " deleted\r\n"@
}

/// The whole document: header, then one line per retained component — or
/// the no-records line when none was retained — then the recycle-bin line
/// and the grand total.
pub open spec fn spec_report(
    date_label: Seq<char>,
    cs: Seq<TempComponent>,
    labels: Seq<Seq<char>>,
    recycle_count: u64,
    recycle_label: Seq<char>,
    total_count: u64,
    total_label: Seq<char>,
) -> Seq<char> {
    spec_header(date_label) + (if cs.len() == 0 {
        "No records found\n"@
    } else {
        spec_lines(cs, labels)
    }) + spec_recycle_line(recycle_count, recycle_label) + spec_total_line(
        total_count,
        total_label,
    )
}

/// Append one component line to the document being built.
fn append_component_line(out: &mut String, path: &String, count: u64, size_label: &String)
    ensures
        final(out)@ == old(out)@ + spec_component_line(path@, count, size_label@),
{
    out.append(path.as_str());
    out.append(" : ");
    let dec = u64_to_dec(count);
    out.append(dec.as_str());
    out.append(" files => ");
    out.append(size_label.as_str());
    out.append(" deleted\r\n");
    proof {
        assert(out@ =~= old(out)@ + spec_component_line(path@, count, size_label@));
    }
}

/// Build the report document. `size_labels` carries the caller-formatted
/// human-readable size of each component, in step with `components`;
/// `recycle_label` and `total_label` are the same presentation values for
/// the recycle bin and the grand total.
pub fn build_report(
    date_label: &String,
    components: &Vec<TempComponent>,
    size_labels: &Vec<String>,
    recycle_count: u64,
    recycle_label: &String,
    total_count: u64,
    total_label: &String,
) -> (r: String)
    requires
        components@.len() == size_labels@.len(),
    ensures
        r@ == spec_report(
            date_label@,
            components@,
            size_labels.deep_view(),
            recycle_count,
            recycle_label@,
            total_count,
            total_label@,
        ),
{
    let mut out = String::from_str("KpTemp v1.4 by kernel-panik\r\n");
    out.append("Date: ");
    out.append(date_label.as_str());
    out.append("\r\n\r\n");
    proof {
        assert(out@ =~= spec_header(date_label@));
    }
    let n = components.len();
    if n == 0 {
        out.append("No records found\n");
    } else {
        for i in 0..n
            invariant
                n == components@.len(),
                n == size_labels@.len(),
                out@ == spec_header(date_label@) + spec_lines(
                    components@.subrange(0, i as int),
                    size_labels.deep_view().subrange(0, i as int),
                ),
        {
            proof {
                let cs = components@.subrange(0, i + 1 as int);
                let ls = size_labels.deep_view().subrange(0, i + 1 as int);
                assert(cs.drop_last() =~= components@.subrange(0, i as int));
                assert(ls.drop_last() =~= size_labels.deep_view().subrange(0, i as int));
                assert(cs.last() == components@[i as int]);
                assert(ls.last() == size_labels.deep_view()[i as int]);
                assert(size_labels.deep_view()[i as int] == size_labels@[i as int]@);
            }
            append_component_line(&mut out, &components[i].path, components[i].count, &size_labels[i]);
        }
        proof {
            assert(components@.subrange(0, n as int) =~= components@);
            assert(size_labels.deep_view().subrange(0, n as int) =~= size_labels.deep_view());
        }
    }
    out.append("Recycle Bin : ");
    let dec = u64_to_dec(recycle_count);
    out.append(dec.as_str());
    out.append(" files => ");
    out.append(recycle_label.as_str());
    out.append(" deleted\r\n\r\n");
    out.append("Total : ");
    let dec2 = u64_to_dec(total_count);
    out.append(dec2.as_str());
    out.append(" files => ");
    out.append(total_label.as_str());
    out.append(" deleted\r\n");
    proof {
        assert(out@ =~= spec_report(
            date_label@,
            components@,
            size_labels.deep_view(),
            recycle_count,
            recycle_label@,
            total_count,
            total_label@,
        ));
    }
    out
}

/// Where the report is written: a timestamped file on the invoking
/// user's desktop.
pub open spec fn spec_report_path(user_profile: Seq<char>, stamp: Seq<char>) -> Seq<char> {
    spec_join(user_profile, "Desktop\\KpTemp_"@ + stamp + ".txt"@)
}

/// Build the report path from the user profile and a timestamp label.
pub fn report_file_path(user_profile: &str, stamp: &str) -> (r: String)
    ensures
        r@ == spec_report_path(user_profile@, stamp@),
{
    let mut name = String::from_str("Desktop\\KpTemp_");
    name.append(stamp);
    name.append(".txt");
    join_path(user_profile, name.as_str())
}

/// Relies on `chrono::Local::now` and `DateTime::format`: the current
/// local time rendered once as the report's date label (first) and once
/// as the filename stamp (second). What time it is only the clock knows,
/// but the stamp's format items render digits, dashes and an underscore
/// alone, so the stamp never holds a path separator.
#[verifier::external_body]
fn local_time_labels() -> (r: (String, String))
    ensures
        forall|i: int| 0 <= i < r.1@.len() ==> !crate::paths::is_sep(r.1@[i]),
{
    let now = chrono::Local::now();
    (
        format!("{}", now.format("%a %b %e %T %Y")),
        format!("{}", now.format("%Y-%m-%d_%H-%M-%S")),
    )
}

/// The per-run date label and report path, derived once at the start of
/// the run: whatever the clock said, the path is a stamped file directly
/// under the desktop directory of the invoking user's profile — the
/// stamp holds no path separator, so the file cannot land deeper.
pub fn report_labels(user_profile: &str) -> (r: (String, String))
    ensures
        exists|stamp: Seq<char>|
            r.1@ == #[trigger] spec_report_path(user_profile@, stamp) && (forall|i: int|
                0 <= i < stamp.len() ==> !crate::paths::is_sep(stamp[i])),
{
    let labels = local_time_labels();
    let path = report_file_path(user_profile, labels.1.as_str());
    proof {
        assert(path@ == spec_report_path(user_profile@, labels.1@));
    }
    (labels.0, path)
}

/// The end-of-run confirmation message.
pub open spec fn spec_success_message(total_count: u64, size_label: Seq<char>) -> Seq<char> {
    "Success "@ + dec_of(total_count as nat) + " files and "@ + size_label + " deleted"@
}

/// Build the end-of-run confirmation message.
pub fn success_message(total_count: u64, size_label: &String) -> (r: String)
    ensures
        r@ == spec_success_message(total_count, size_label@),
{
    let mut out = String::from_str("Success ");
    let dec = u64_to_dec(total_count);
    out.append(dec.as_str());
    out.append(" files and ");
    out.append(size_label.as_str());
    out.append(" deleted");
    proof {
        assert(out@ =~= spec_success_message(total_count, size_label@));
    }
    out
}

} // verus!
