//! The action log, cut into pages for reading.

use vstd::prelude::*;
use crate::text::{joined, join_range, lemma_pushed};

verus! {

/// How many entries one page of the log holds.
pub const PAGE_SIZE: usize = 5;

/// How many characters of an entry are shown in a page's label.
pub const LABEL_CHARS: usize = 25;

/// The number of pages that `entries` log entries fill: a last page with
/// fewer entries than the others counts as well.
pub open spec fn page_count(entries: nat) -> nat {
    ((entries + PAGE_SIZE - 1) / (PAGE_SIZE as int)) as nat
}

/// The index of the first entry after page `k` of a log of `entries` entries.
pub open spec fn page_end(entries: nat, k: int) -> int {
    if PAGE_SIZE * k + PAGE_SIZE <= entries {
        PAGE_SIZE * k + PAGE_SIZE
    } else {
        entries as int
    }
}

/// The entries of page `k`, counted from zero.
pub open spec fn page(log: Seq<Seq<char>>, k: int) -> Seq<Seq<char>> {
    log.subrange(PAGE_SIZE * k, page_end(log.len(), k))
}

/// The label of a page that begins with `entry`: its first characters, all
/// of them where it has no more than fit, and an ellipsis.
pub open spec fn label(entry: Seq<char>) -> Seq<char> {
    if entry.len() <= LABEL_CHARS {
        entry + "..."@
    } else {
        entry.take(LABEL_CHARS as int) + "..."@
    }
}

/// The labels of all pages of `log`, in order.
pub open spec fn labels(log: Seq<Seq<char>>) -> Seq<Seq<char>> {
    Seq::new(page_count(log.len()), |k: int| label(log[PAGE_SIZE * k]))
}

/// The text of page `k`: its entries with a blank line between neighbours.
pub open spec fn page_text(log: Seq<Seq<char>>, k: int) -> Seq<char> {
    joined(page(log, k), "\n\n"@)
}

/// The pages are as few as can hold all entries: they have room for every
/// entry, and one page less would not.
pub proof fn lemma_page_count(entries: nat)
    ensures
        entries <= PAGE_SIZE * page_count(entries),
        entries > 0 ==> PAGE_SIZE * (page_count(entries) - 1) < entries,
        entries == 0 ==> page_count(entries) == 0,
{
}

/// The pages cut the log without loss or overlap: every page holds between
/// one and five entries, every page but the last holds five, and the entry
/// at position `i` of the log stands on page `i / 5` at position `i % 5`.
pub proof fn lemma_pages_cut_log(log: Seq<Seq<char>>, i: int)
    requires
        0 <= i < log.len(),
    ensures
        i / (PAGE_SIZE as int) < page_count(log.len()),
        1 <= page(log, i / (PAGE_SIZE as int)).len() <= PAGE_SIZE,
        i / (PAGE_SIZE as int) < page_count(log.len()) - 1 ==> page(
            log,
            i / (PAGE_SIZE as int),
        ).len() == PAGE_SIZE,
        i % (PAGE_SIZE as int) < page(log, i / (PAGE_SIZE as int)).len(),
        page(log, i / (PAGE_SIZE as int))[i % (PAGE_SIZE as int)] == log[i],
{
}

/// The number of pages of a log of `entries` entries.
pub fn count_pages(entries: usize) -> (pages: usize)
    ensures
        pages == page_count(entries as nat),
{
    if entries % PAGE_SIZE == 0 {
        entries / PAGE_SIZE
    } else {
        entries / PAGE_SIZE + 1
    }
}

/// The label of a page that begins with `entry`.
pub fn page_label(entry: &String) -> (out: String)
    ensures
        out@ == label(entry@),
{
    let whole = entry.as_str();
    let chars: usize = whole.unicode_len();
    let shown = if chars <= LABEL_CHARS {
        whole
    } else {
        whole.substring_char(0, LABEL_CHARS)
    };
    assert(chars <= LABEL_CHARS ==> shown@ == entry@);
    let mut out = String::from_str(shown);
    out.append("...");
    out
}

/// The labels of all pages of `log`, in order.
pub fn page_labels(log: &Vec<String>) -> (out: Vec<String>)
    ensures
        out.deep_view() == labels(log.deep_view()),
        out.len() == page_count(log.len() as nat),
{
    let pages: usize = count_pages(log.len());
    let mut out: Vec<String> = Vec::new();
    let mut k: usize = 0;
    while k < pages
        invariant
            k <= pages,
            pages == page_count(log.len() as nat),
            out.len() == k,
            out.deep_view() == labels(log.deep_view()).take(k as int),
        decreases pages - k,
    {
        let ghost before = out;
        let label: String = page_label(&log[PAGE_SIZE * k]);
        out.push(label);
        proof {
            lemma_pushed(before, out, label);
            assert(out.deep_view() =~= labels(log.deep_view()).take(k + 1));
        }
        k = k + 1;
    }
    assert(labels(log.deep_view()).take(k as int) =~= labels(log.deep_view()));
    out
}

/// The text of page `k` of `log`, if the log has such a page.
pub fn read_page(log: &Vec<String>, k: usize) -> (out: Option<String>)
    ensures
        out.deep_view() == if k < page_count(log.len() as nat) {
            Some(page_text(log.deep_view(), k as int))
        } else {
            None
        },
{
    if k >= count_pages(log.len()) {
        return None;
    }
    let from: usize = PAGE_SIZE * k;
    let to: usize = if log.len() - from >= PAGE_SIZE {
        from + PAGE_SIZE
    } else {
        log.len()
    };
    Some(join_range(log, from, to, "\n\n"))
}

} // verus!
