use vstd::prelude::*;
use crate::purse::texts;

verus! {

/// One change to the region of the page that shows a report.
#[derive(Debug)]
pub enum RenderOp {
    /// Remove everything the region shows.
    Clear,
    /// Add a paragraph holding this text at the end of the region.
    Append(String),
}

/// The paragraphs a region shows after `op`, given those it showed before.
pub open spec fn apply_op(content: Seq<Seq<char>>, op: RenderOp) -> Seq<Seq<char>> {
    match op {
        RenderOp::Clear => Seq::empty(),
        RenderOp::Append(s) => content.push(s@),
    }
}

/// The paragraphs a region shows after `ops` in order, given those it showed before.
pub open spec fn apply_ops(content: Seq<Seq<char>>, ops: Seq<RenderOp>) -> Seq<Seq<char>>
    decreases ops.len(),
{
    if ops.len() == 0 {
        content
    } else {
        apply_op(apply_ops(content, ops.drop_last()), ops.last())
    }
}

/// `ops` clears the region, then appends `lines` one paragraph each, in order.
pub open spec fn is_plan(ops: Seq<RenderOp>, lines: Seq<Seq<char>>) -> bool {
    &&& ops.len() == lines.len() + 1
    &&& ops[0] is Clear
    &&& forall|i: int|
        0 <= i < lines.len() ==> (#[trigger] ops[i + 1] is Append && ops[i + 1]->Append_0@ == lines[i])
}

/// The changes that make a region show exactly `lines`: clear it, then append
/// each line as a paragraph.
pub fn render_plan(lines: &Vec<String>) -> (r: Vec<RenderOp>)
    ensures
        is_plan(r@, texts(lines@)),
{
    let mut ops: Vec<RenderOp> = Vec::new();
    ops.push(RenderOp::Clear);
    let mut i: usize = 0;
    while i < lines.len()
        invariant
            i <= lines.len(),
            ops@.len() == i + 1,
            ops@[0] is Clear,
            forall|j: int|
                0 <= j < i ==> (#[trigger] ops@[j + 1] is Append && ops@[j + 1]->Append_0@
                    == lines@[j]@),
        decreases lines.len() - i,
    {
        ops.push(RenderOp::Append(lines[i].clone()));
        i += 1;
    }
    ops
}

/// Following a plan, whatever the region showed before, leaves it showing
/// exactly the plan's lines.
pub proof fn lemma_plan_shows_lines(content: Seq<Seq<char>>, ops: Seq<RenderOp>, lines: Seq<Seq<char>>)
    requires
        is_plan(ops, lines),
    ensures
        apply_ops(content, ops) == lines,
{
    lemma_plan_prefix(content, ops, lines, lines.len() as int);
    assert(ops.take(ops.len() as int) =~= ops);
    assert(lines.take(lines.len() as int) =~= lines);
}

proof fn lemma_plan_prefix(content: Seq<Seq<char>>, ops: Seq<RenderOp>, lines: Seq<Seq<char>>, k: int)
    requires
        is_plan(ops, lines),
        0 <= k <= lines.len(),
    ensures
        apply_ops(content, ops.take(k + 1)) == lines.take(k),
    decreases k,
{
    if k == 0 {
        let t = ops.take(1);
        assert(t.drop_last() =~= Seq::<RenderOp>::empty());
        assert(lines.take(0) =~= Seq::<Seq<char>>::empty());
    } else {
        lemma_plan_prefix(content, ops, lines, k - 1);
        let t = ops.take(k + 1);
        assert(t.drop_last() =~= ops.take(k));
        assert(ops[k] is Append);
        assert(lines.take(k) =~= lines.take(k - 1).push(lines[k - 1]));
    }
}

/// Reporting twice to the same region leaves only the second report: nothing
/// of the first, nor of what the region showed before, remains.
pub proof fn lemma_render_twice_keeps_last(
    content: Seq<Seq<char>>,
    first: Seq<RenderOp>,
    first_lines: Seq<Seq<char>>,
    second: Seq<RenderOp>,
    second_lines: Seq<Seq<char>>,
)
    requires
        is_plan(first, first_lines),
        is_plan(second, second_lines),
    ensures
        apply_ops(content, first) == first_lines,
        apply_ops(apply_ops(content, first), second) == second_lines,
{
    lemma_plan_shows_lines(content, first, first_lines);
    lemma_plan_shows_lines(apply_ops(content, first), second, second_lines);
}

} // verus!
