use vstd::prelude::*;
use crate::text::{ends_with, normalize_separators, forward_slashes, has_suffix};

verus! {

/// Whether a directory entry's name marks it as a C header.
pub open spec fn is_header(name: Seq<char>) -> bool {
    has_suffix(name, ".h"@)
}

/// The path of a public API header, relative to the distribution root.
pub open spec fn capi_relative_path(name: Seq<char>) -> Seq<char> {
    "include/capi/"@ + forward_slashes(name)
}

/// The include directive that pulls in the API header called `name`.
pub open spec fn include_line(name: Seq<char>) -> Seq<char> {
    "#include \""@ + capi_relative_path(name) + "\""@
}

/// The lines of the aggregate header for a listing of the API header
/// directory: one include per header, in listing order.
pub open spec fn aggregate_lines(names: Seq<Seq<char>>) -> Seq<Seq<char>> {
    header_entries(names).map_values(|n: Seq<char>| include_line(n))
}

/// The header entries of a directory listing, in listing order.
pub open spec fn header_entries(names: Seq<Seq<char>>) -> Seq<Seq<char>> {
    names.filter(|n: Seq<char>| is_header(n))
}

/// The aggregate header has one include line for each header entry of the
/// listing, in listing order, and none for any other entry: a listing with
/// no header gives no line at all.
pub proof fn aggregate_lines_one_per_header(names: Seq<Seq<char>>)
    ensures
        aggregate_lines(names).len() == header_entries(names).len(),
        forall|i: int|
            0 <= i < header_entries(names).len() ==> {
                &&& is_header(#[trigger] header_entries(names)[i])
                &&& names.contains(header_entries(names)[i])
                &&& aggregate_lines(names)[i] == include_line(header_entries(names)[i])
            },
        forall|i: int|
            0 <= i < names.len() && is_header(names[i]) ==> header_entries(names).contains(
                #[trigger] names[i],
            ),
        (forall|i: int| 0 <= i < names.len() ==> !is_header(#[trigger] names[i]))
            ==> aggregate_lines(names).len() == 0,
{
    broadcast use Seq::lemma_filter_pred, Seq::lemma_filter_contains, Seq::lemma_filter_contains_rev;

    let hs = header_entries(names);
    assert forall|i: int| 0 <= i < hs.len() implies names.contains(#[trigger] hs[i]) by {
        assert(hs.contains(hs[i]));
    }
    if forall|i: int| 0 <= i < names.len() ==> !is_header(#[trigger] names[i]) {
        if hs.len() > 0 {
            assert(names.contains(hs[0]));
            assert(is_header(hs[0]));
        }
    }
}

/// The views of a vector of strings.
pub open spec fn views(v: Seq<String>) -> Seq<Seq<char>> {
    v.map_values(|s: String| s@)
}

/// Whether a directory entry is a C header, by its name.
pub fn is_header_name(name: &str) -> (r: bool)
    ensures
        r == is_header(name@),
{
    ends_with(name, ".h")
}

/// The include directive for the API header called `name`, with its path
/// relative to the distribution root and written with forward slashes.
pub fn include_directive(name: &str) -> (r: String)
    ensures
        r@ == include_line(name@),
{
    let mut out = String::from_str("#include \"");
    out.append("include/capi/");
    let rel = normalize_separators(name);
    out.append(rel.as_str());
    out.append("\"");
    out
}

/// The lines of the aggregate header, given the entry names of the API
/// header directory in listing order. Entries that are not headers give no
/// line; each header gives exactly one.
pub fn aggregate_header_lines(names: &Vec<String>) -> (r: Vec<String>)
    ensures
        views(r@) == aggregate_lines(views(names@)),
{
    let ghost pred = |n: Seq<char>| is_header(n);
    let ghost line = |n: Seq<char>| include_line(n);
    let mut out: Vec<String> = Vec::new();
    let mut i: usize = 0;
    while i < names.len()
        invariant
            i <= names@.len(),
            pred == (|n: Seq<char>| is_header(n)),
            line == (|n: Seq<char>| include_line(n)),
            views(out@) == views(names@).take(i as int).filter(pred).map_values(line),
        decreases names@.len() - i,
    {
        let name = &names[i];
        let ghost prefix = views(names@).take(i as int);
        let ghost next = views(names@).take(i + 1);
        proof {
            assert(next.drop_last() =~= prefix);
            assert(next.last() == name@);
        }
        assert(next.filter(pred) == if pred(name@) {
            prefix.filter(pred).push(name@)
        } else {
            prefix.filter(pred)
        }) by {
            reveal_with_fuel(Seq::filter, 1);
        }
        if is_header_name(name.as_str()) {
            let l = include_directive(name.as_str());
            let ghost before = out@;
            out.push(l);
            assert(views(out@) =~= views(before).push(line(name@)));
            assert(views(out@) =~= next.filter(pred).map_values(line));
        } else {
            assert(views(out@) =~= next.filter(pred).map_values(line));
        }
        i = i + 1;
    }
    assert(views(names@).take(names@.len() as int) =~= views(names@));
    out
}

/// Whether the aggregate header must be written: only when no file stands at
/// its place yet. An existing file is kept as it is, whatever it holds.
pub fn aggregate_header_needs_writing(exists: bool) -> (r: bool)
    ensures
        r == !exists,
{
    !exists
}

} // verus!
