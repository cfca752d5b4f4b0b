//! Text helpers shared by the command handlers: joining, labels and
//! membership over lists of strings.

use vstd::prelude::*;

verus! {

/// The parts written one after the other with `sep` between neighbours.
pub open spec fn joined(parts: Seq<Seq<char>>, sep: Seq<char>) -> Seq<char>
    decreases parts.len(),
{
    if parts.len() == 0 {
        Seq::empty()
    } else if parts.len() == 1 {
        parts[0]
    } else {
        joined(parts.drop_last(), sep) + sep + parts.last()
    }
}

/// Joins `parts[from..to]` with `sep` between neighbours.
pub fn join_range(parts: &Vec<String>, from: usize, to: usize, sep: &str) -> (out: String)
    requires
        from <= to <= parts.len(),
    ensures
        out@ == joined(parts.deep_view().subrange(from as int, to as int), sep@),
{
    let mut out = String::new();
    let mut i: usize = from;
    while i < to
        invariant
            from <= i <= to <= parts.len(),
            out@ == joined(parts.deep_view().subrange(from as int, i as int), sep@),
        decreases to - i,
    {
        if i > from {
            out.append(sep);
        }
        out.append(parts[i].as_str());
        proof {
            let before = parts.deep_view().subrange(from as int, i as int);
            let after = parts.deep_view().subrange(from as int, i + 1);
            assert(after.drop_last() == before);
            assert(after.last() == parts[i as int]@);
            if i == from {
                assert(out@ == after[0]);
            }
        }
        i = i + 1;
    }
    out
}

/// A list that has grown by one item at its end shows what it showed
/// before, and after that what the new item shows.
pub proof fn lemma_pushed<T: DeepView>(before: Vec<T>, after: Vec<T>, item: T)
    requires
        after@ == before@.push(item),
    ensures
        after.deep_view() == before.deep_view().push(item.deep_view()),
{
    assert(after.deep_view() =~= before.deep_view().push(item.deep_view()));
}

/// Whether `name` is one of `list`.
pub fn contains(list: &Vec<String>, name: &String) -> (found: bool)
    ensures
        found == list.deep_view().contains(name@),
{
    let mut i: usize = 0;
    while i < list.len()
        invariant
            i <= list.len(),
            forall|k: int| 0 <= k < i ==> list.deep_view()[k] != name@,
        decreases list.len() - i,
    {
        if list[i] == *name {
            assert(list.deep_view()[i as int] == name@);
            return true;
        }
        i = i + 1;
    }
    false
}

/// A copy of `list`.
pub fn copy_list(list: &Vec<String>) -> (copy: Vec<String>)
    ensures
        copy.deep_view() == list.deep_view(),
{
    let mut copy: Vec<String> = Vec::new();
    let mut i: usize = 0;
    while i < list.len()
        invariant
            i <= list.len(),
            copy.len() == i,
            copy.deep_view() == list.deep_view().take(i as int),
        decreases list.len() - i,
    {
        let ghost before = copy;
        copy.push(list[i].clone());
        proof {
            lemma_pushed(before, copy, list[i as int]);
            assert(copy.deep_view() =~= list.deep_view().take(i + 1));
        }
        i = i + 1;
    }
    assert(list.deep_view().take(list.len() as int) =~= list.deep_view());
    copy
}

/// Calls `itertools::join` on the strings of `items`. Trusted, not proved:
/// that it writes each item as it displays, here the string itself, and
/// `sep` between neighbours. The separator is kept short because
/// `itertools::join` reserves `sep.len() * (items.len() - 1)` bytes before
/// it writes anything, and with up to two characters that product cannot
/// overflow.
#[verifier::external_body]
fn join_displayed(items: &Vec<String>, sep: &str) -> (out: String)
    requires
        sep@.len() <= 2,
    ensures
        out@ == joined(items.deep_view(), sep@),
{
    itertools::join(items, sep)
}

/// Joins all of `items` with ", " between neighbours.
pub fn comma_list(items: &Vec<String>) -> (out: String)
    ensures
        out@ == joined(items.deep_view(), ", "@),
{
    proof {
        reveal_strlit(", ");
    }
    join_displayed(items, ", ")
}

} // verus!
