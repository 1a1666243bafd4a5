//! Command lines as lists of arguments, and how they are assembled.
use vstd::prelude::*;

use crate::text::owned;

verus! {

/// The text of each argument of a command line.
pub open spec fn arg_views(v: Seq<String>) -> Seq<Seq<char>> {
    v.map_values(|a: String| a@)
}

/// The text of each argument of each command line of a sequence.
pub open spec fn plan_views(v: Seq<Vec<String>>) -> Seq<Seq<Seq<char>>> {
    v.map_values(|a: Vec<String>| arg_views(a@))
}

/// Appends an argument to a command line.
pub fn push_arg(v: &mut Vec<String>, a: String)
    ensures
        arg_views(final(v)@) == arg_views(old(v)@).push(a@),
{
    let ghost a_view = a@;
    v.push(a);
    assert(arg_views(v@) =~= arg_views(old(v)@).push(a_view));
}

/// Appends a copy of `a` to a command line.
pub fn push_str_arg(v: &mut Vec<String>, a: &str)
    ensures
        arg_views(final(v)@) == arg_views(old(v)@).push(a@),
{
    push_arg(v, owned(a));
}

/// Appends a command line to a sequence of command lines.
pub fn push_line(plan: &mut Vec<Vec<String>>, line: Vec<String>)
    ensures
        plan_views(final(plan)@) == plan_views(old(plan)@).push(arg_views(line@)),
{
    let ghost line_view = arg_views(line@);
    plan.push(line);
    assert(plan_views(plan@) =~= plan_views(old(plan)@).push(line_view));
}

/// A copy of a command line.
pub fn clone_line(v: &Vec<String>) -> (r: Vec<String>)
    ensures
        arg_views(r@) == arg_views(v@),
{
    let mut r: Vec<String> = Vec::new();
    let mut i: usize = 0;
    while i < v.len()
        invariant
            i <= v.len(),
            arg_views(r@) == arg_views(v@).take(i as int),
        decreases v.len() - i,
    {
        push_arg(&mut r, v[i].clone());
        assert(arg_views(v@).take(i + 1) =~= arg_views(v@).take(i as int).push(v@[i as int]@));
        i += 1;
    }
    assert(arg_views(v@).take(v.len() as int) =~= arg_views(v@));
    r
}

} // verus!
