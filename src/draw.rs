//! The draw plan of a frame: which element commands of each draw list are
//! issued, over which slice of the list's index buffer, with which texture.
use vstd::prelude::*;
use crate::texture::{TextureBinding, TextureTable, resolve_spec};

verus! {

/// One element-drawing command of a draw list, as the renderer reads it:
/// how many indices it consumes, the texture it names, and whether its clip
/// rectangle, mapped into framebuffer pixels, overlaps the framebuffer.
#[derive(Clone, Copy, Debug, PartialEq, Eq, Structural)]
pub struct DrawCommand {
    pub count: usize,
    pub texture_id: usize,
    pub visible: bool,
}

/// One draw call: the index range `[start, end)` of the draw list's buffer
/// and the texture bound while drawing it.
#[derive(Clone, Copy, Debug, PartialEq, Eq, Structural)]
pub struct DrawCall {
    pub start: usize,
    pub end: usize,
    pub texture: TextureBinding,
}

/// The number of indices that the first `i` commands consume.
pub open spec fn index_offset(cmds: Seq<DrawCommand>, i: int) -> int
    decreases i,
{
    if i <= 0 {
        0
    } else {
        index_offset(cmds, i - 1) + cmds[i - 1].count
    }
}

/// The number of indices that all commands of a list consume.
pub open spec fn total_count(cmds: Seq<DrawCommand>) -> int {
    index_offset(cmds, cmds.len() as int)
}

/// What command `i` of a list becomes: culled, or one call over its own
/// slice of the index buffer with its resolved texture.
pub open spec fn planned_call(entries: Map<usize, usize>, cmds: Seq<DrawCommand>, i: int) -> Option<
    DrawCall,
> {
    if cmds[i].visible {
        Some(
            DrawCall {
                start: index_offset(cmds, i) as usize,
                end: index_offset(cmds, i + 1) as usize,
                texture: resolve_spec(entries, cmds[i].texture_id),
            },
        )
    } else {
        None
    }
}

/// The plan of a whole draw list, one entry per command, in command order.
pub open spec fn plan_spec(entries: Map<usize, usize>, cmds: Seq<DrawCommand>) -> Seq<
    Option<DrawCall>,
> {
    Seq::new(cmds.len(), |i: int| planned_call(entries, cmds, i))
}

/// Offsets never go negative and never decrease along the list.
pub proof fn lemma_index_offset_monotonic(cmds: Seq<DrawCommand>, i: int, j: int)
    requires
        0 <= i <= j <= cmds.len(),
    ensures
        0 <= index_offset(cmds, i) <= index_offset(cmds, j),
    decreases j,
{
    if j > 0 {
        if i == j {
            lemma_index_offset_monotonic(cmds, i - 1, j - 1);
        } else {
            lemma_index_offset_monotonic(cmds, i, j - 1);
        }
    }
}

/// A command is issued exactly once when its clip rectangle overlaps the
/// framebuffer, and not at all when it lies wholly outside.
pub proof fn lemma_cull_issues_once_or_never(entries: Map<usize, usize>, cmds: Seq<DrawCommand>)
    ensures
        plan_spec(entries, cmds).len() == cmds.len(),
        forall|i: int|
            0 <= i < cmds.len() ==> (#[trigger] plan_spec(entries, cmds)[i] is Some
                <==> cmds[i].visible),
{
}

/// When no command of a list is culled, the issued index ranges, in command
/// order, tile `[0, total)` exactly: the first starts at zero, each starts
/// where the one before ended, none runs backwards, and the last ends at the
/// total count.
pub proof fn lemma_issued_ranges_tile(entries: Map<usize, usize>, cmds: Seq<DrawCommand>)
    requires
        total_count(cmds) <= usize::MAX,
        forall|i: int| 0 <= i < cmds.len() ==> #[trigger] cmds[i].visible,
    ensures
        forall|i: int| 0 <= i < cmds.len() ==> #[trigger] plan_spec(entries, cmds)[i] is Some,
        forall|i: int|
            0 <= i < cmds.len() ==> (#[trigger] plan_spec(entries, cmds)[i])->Some_0.start
                <= plan_spec(entries, cmds)[i]->Some_0.end,
        cmds.len() > 0 ==> plan_spec(entries, cmds)[0]->Some_0.start == 0,
        forall|i: int|
            0 <= i < cmds.len() - 1 ==> (#[trigger] plan_spec(entries, cmds)[i])->Some_0.end
                == plan_spec(entries, cmds)[i + 1]->Some_0.start,
        cmds.len() > 0 ==> plan_spec(entries, cmds)[cmds.len() - 1]->Some_0.end == total_count(
            cmds,
        ),
{
    let plan = plan_spec(entries, cmds);
    assert forall|i: int| 0 <= i < cmds.len() implies #[trigger] plan[i] is Some && plan[
        i
    ]->Some_0.start == index_offset(cmds, i) && plan[i]->Some_0.end == index_offset(cmds, i + 1)
        && index_offset(cmds, i) <= index_offset(cmds, i + 1) by {
        lemma_index_offset_monotonic(cmds, i, i + 1);
        lemma_index_offset_monotonic(cmds, i + 1, cmds.len() as int);
    }
    if cmds.len() > 0 {
        assert(plan[0]->Some_0.start == 0);
    }
    assert forall|i: int| 0 <= i < cmds.len() - 1 implies (#[trigger] plan[i])->Some_0.end
        == plan[i + 1]->Some_0.start by {
        assert(plan[i + 1] is Some);
    }
}

/// Plans the calls of one draw list. The index range starts at zero and
/// advances by each command's count, whether or not that command is culled.
pub fn plan_draw_list(textures: &TextureTable, cmds: &Vec<DrawCommand>) -> (r: Vec<Option<DrawCall>>)
    requires
        total_count(cmds@) <= usize::MAX,
    ensures
        r@ == plan_spec(textures.entries(), cmds@),
{
    let mut r: Vec<Option<DrawCall>> = Vec::new();
    let mut idx_start: usize = 0;
    let mut i: usize = 0;
    while i < cmds.len()
        invariant
            i <= cmds.len(),
            total_count(cmds@) <= usize::MAX,
            idx_start == index_offset(cmds@, i as int),
            r@.len() == i,
            forall|k: int| 0 <= k < i ==> r@[k] == #[trigger] planned_call(textures.entries(), cmds@, k),
        decreases cmds.len() - i,
    {
        let cmd = cmds[i];
        proof {
            lemma_index_offset_monotonic(cmds@, i as int + 1, cmds@.len() as int);
        }
        let idx_end = idx_start + cmd.count;
        if cmd.visible {
            let texture = textures.resolve(cmd.texture_id);
            r.push(Some(DrawCall { start: idx_start, end: idx_end, texture }));
        } else {
            r.push(None);
        }
        idx_start = idx_end;
        i = i + 1;
    }
    assert(r@ =~= plan_spec(textures.entries(), cmds@));
    r
}

/// The total index count of every list fits the index type.
pub open spec fn lists_fit(lists: Seq<Vec<DrawCommand>>) -> bool {
    forall|l: int| 0 <= l < lists.len() ==> total_count(#[trigger] lists[l]@) <= usize::MAX
}

/// Plans a whole frame, one plan per draw list in the given order; each
/// list's index range starts again at zero.
pub fn plan_frame(textures: &TextureTable, lists: &Vec<Vec<DrawCommand>>) -> (r: Vec<
    Vec<Option<DrawCall>>,
>)
    requires
        lists_fit(lists@),
    ensures
        r@.len() == lists@.len(),
        forall|l: int|
            0 <= l < lists@.len() ==> (#[trigger] r@[l])@ == plan_spec(
                textures.entries(),
                lists@[l]@,
            ),
{
    let mut r: Vec<Vec<Option<DrawCall>>> = Vec::new();
    let mut l: usize = 0;
    while l < lists.len()
        invariant
            l <= lists@.len(),
            lists_fit(lists@),
            r@.len() == l,
            forall|k: int|
                0 <= k < l ==> (#[trigger] r@[k])@ == plan_spec(textures.entries(), lists@[k]@),
        decreases lists@.len() - l,
    {
        let plan = plan_draw_list(textures, &lists[l]);
        r.push(plan);
        l = l + 1;
    }
    r
}

} // verus!
