//! Instanced drawing of the placed structures: grouping placements by structure and
//! numbering the instances of each draw call.

use vstd::prelude::*;

use crate::coords::Int2;
use crate::game::state::Placement;
use crate::voxel::structures::STRUCTURE_COUNT;

verus! {

/// Tiles of the placements of structure `id`, in the order of `ps`.
pub open spec fn tiles_with_structure(ps: Seq<Placement>, id: int) -> Seq<Int2>
    decreases ps.len(),
{
    if ps.len() == 0 {
        seq![]
    } else {
        tiles_with_structure(ps.drop_last(), id) + if ps.last().structure_id == id {
            seq![ps.last().tile]
        } else {
            seq![]
        }
    }
}

/// Groups the placements by structure: group `i` lists, in order, the tiles of the
/// placements of structure `i`; placements of unknown structures are left out.
pub fn instance_groups(placements: &[Placement]) -> (groups: Vec<Vec<Int2>>)
    ensures
        groups@.len() == STRUCTURE_COUNT,
        forall|i: int|
            0 <= i < STRUCTURE_COUNT ==> (#[trigger] groups@[i])@ == tiles_with_structure(
                placements@,
                i,
            ),
{
    let mut groups: Vec<Vec<Int2>> = Vec::new();
    let mut i: usize = 0;
    while i < STRUCTURE_COUNT
        invariant
            i <= STRUCTURE_COUNT,
            groups@.len() == i,
            forall|j: int| 0 <= j < i ==> (#[trigger] groups@[j])@ == Seq::<Int2>::empty(),
        decreases STRUCTURE_COUNT - i,
    {
        groups.push(Vec::new());
        i = i + 1;
    }
    let mut k: usize = 0;
    while k < placements.len()
        invariant
            k <= placements@.len(),
            groups@.len() == STRUCTURE_COUNT,
            forall|j: int|
                0 <= j < STRUCTURE_COUNT ==> (#[trigger] groups@[j])@ == tiles_with_structure(
                    placements@.take(k as int),
                    j,
                ),
        decreases placements@.len() - k,
    {
        let p = placements[k];
        assert(placements@.take(k + 1).drop_last() =~= placements@.take(k as int));
        if (p.structure_id as usize) < STRUCTURE_COUNT {
            let id = p.structure_id as usize;
            let ghost before = groups@;
            groups[id].push(p.tile);
            assert forall|j: int|
                0 <= j < STRUCTURE_COUNT implies (#[trigger] groups@[j])@ == tiles_with_structure(
                placements@.take(k + 1),
                j,
            ) by {
                if j == id {
                    assert(groups@[j]@ =~= before[j]@.push(p.tile));
                } else {
                    assert(groups@[j] == before[j]);
                    assert(tiles_with_structure(placements@.take(k + 1), j) =~= tiles_with_structure(
                        placements@.take(k as int),
                        j,
                    ));
                }
            }
        } else {
            assert forall|j: int|
                0 <= j < STRUCTURE_COUNT implies (#[trigger] groups@[j])@ == tiles_with_structure(
                placements@.take(k + 1),
                j,
            ) by {
                assert(tiles_with_structure(placements@.take(k + 1), j) =~= tiles_with_structure(
                    placements@.take(k as int),
                    j,
                ));
            }
        }
        k = k + 1;
    }
    assert(placements@.take(placements@.len() as int) =~= placements@);
    groups
}

/// One instanced draw call: structure `structure`'s mesh, `instance_count` instances from
/// `first_instance` on.
#[derive(Clone, Copy, Debug, PartialEq, Eq, Structural)]
pub struct DrawBatch {
    pub structure: usize,
    pub first_instance: u32,
    pub instance_count: u32,
}

/// Group `i` is drawn: it has instances and its mesh has indices.
pub open spec fn drawn(sizes: Seq<u32>, index_counts: Seq<u32>, i: int) -> bool {
    sizes[i] != 0 && index_counts[i] != 0
}

/// Instances of the drawn groups among the first `n`.
pub open spec fn drawn_total(sizes: Seq<u32>, index_counts: Seq<u32>, n: int) -> int
    decreases n,
{
    if n <= 0 {
        0
    } else {
        drawn_total(sizes, index_counts, n - 1) + if drawn(sizes, index_counts, n - 1) {
            sizes[n - 1] as int
        } else {
            0
        }
    }
}

/// Draw calls for the first `n` groups: each drawn group starts where the previous drawn
/// group ended; groups that are not drawn advance nothing.
pub open spec fn draw_plan(sizes: Seq<u32>, index_counts: Seq<u32>, n: int) -> Seq<DrawBatch>
    decreases n,
{
    if n <= 0 {
        seq![]
    } else {
        draw_plan(sizes, index_counts, n - 1) + if drawn(sizes, index_counts, n - 1) {
            seq![
                DrawBatch {
                    structure: (n - 1) as usize,
                    first_instance: drawn_total(sizes, index_counts, n - 1) as u32,
                    instance_count: sizes[n - 1],
                },
            ]
        } else {
            seq![]
        }
    }
}

proof fn lemma_drawn_total_nonneg(sizes: Seq<u32>, index_counts: Seq<u32>, n: int)
    ensures
        0 <= drawn_total(sizes, index_counts, n),
    decreases n,
{
    if n > 0 {
        lemma_drawn_total_nonneg(sizes, index_counts, n - 1);
    }
}

proof fn lemma_drawn_total_mono(sizes: Seq<u32>, index_counts: Seq<u32>, n: int, m: int)
    requires
        n <= m,
    ensures
        0 <= drawn_total(sizes, index_counts, n) <= drawn_total(sizes, index_counts, m),
    decreases m - n,
{
    lemma_drawn_total_nonneg(sizes, index_counts, n);
    if n < m && m > 0 {
        lemma_drawn_total_mono(sizes, index_counts, n, m - 1);
    }
}

/// The draw calls for instance groups of sizes `sizes` whose meshes have `index_counts`
/// indices, the instances stored group after group.
pub fn draw_batches(sizes: &[u32], index_counts: &[u32]) -> (plan: Vec<DrawBatch>)
    requires
        sizes@.len() == index_counts@.len(),
        drawn_total(sizes@, index_counts@, sizes@.len() as int) <= u32::MAX,
    ensures
        plan@ == draw_plan(sizes@, index_counts@, sizes@.len() as int),
{
    let mut plan: Vec<DrawBatch> = Vec::new();
    let mut base_instance: u32 = 0;
    let mut i: usize = 0;
    while i < sizes.len()
        invariant
            sizes@.len() == index_counts@.len(),
            i <= sizes@.len(),
            drawn_total(sizes@, index_counts@, sizes@.len() as int) <= u32::MAX,
            base_instance == drawn_total(sizes@, index_counts@, i as int),
            plan@ == draw_plan(sizes@, index_counts@, i as int),
        decreases sizes@.len() - i,
    {
        proof {
            lemma_drawn_total_mono(sizes@, index_counts@, i + 1, sizes@.len() as int);
        }
        let count = sizes[i];
        if count == 0 || index_counts[i] == 0 {
            i = i + 1;
            continue;
        }
        plan.push(DrawBatch { structure: i, first_instance: base_instance, instance_count: count });
        base_instance = base_instance + count;
        i = i + 1;
    }
    plan
}

/// Number of tiles in the groups of structures `0..n`.
pub open spec fn grouped_count(ps: Seq<Placement>, n: int) -> int
    decreases n,
{
    if n <= 0 {
        0
    } else {
        grouped_count(ps, n - 1) + tiles_with_structure(ps, n - 1).len()
    }
}

proof fn lemma_grouped_count_step(ps: Seq<Placement>, n: int)
    requires
        ps.len() > 0,
        n >= 0,
    ensures
        grouped_count(ps, n) == grouped_count(ps.drop_last(), n) + if ps.last().structure_id < n {
            1int
        } else {
            0int
        },
    decreases n,
{
    if n > 0 {
        lemma_grouped_count_step(ps, n - 1);
    }
}

proof fn lemma_grouped_count_empty(ps: Seq<Placement>, n: int)
    requires
        ps.len() == 0,
    ensures
        grouped_count(ps, n) == 0,
    decreases n,
{
    if n > 0 {
        lemma_grouped_count_empty(ps, n - 1);
    }
}

/// Every placement lands in at most one group, so the groups together hold at most as many
/// instances as there are placements.
pub proof fn law_groups_fit_placements(ps: Seq<Placement>)
    ensures
        grouped_count(ps, STRUCTURE_COUNT as int) <= ps.len(),
    decreases ps.len(),
{
    if ps.len() > 0 {
        law_groups_fit_placements(ps.drop_last());
        lemma_grouped_count_step(ps, STRUCTURE_COUNT as int);
    } else {
        lemma_grouped_count_empty(ps, STRUCTURE_COUNT as int);
    }
}

/// Shape of the plan for the first `n` groups, and where its instance numbering ends.
proof fn lemma_plan_shape(sizes: Seq<u32>, index_counts: Seq<u32>, n: int)
    requires
        0 <= n <= sizes.len() <= usize::MAX,
        sizes.len() == index_counts.len(),
        drawn_total(sizes, index_counts, n) <= u32::MAX,
    ensures
        ({
            let plan = draw_plan(sizes, index_counts, n);
            &&& forall|j: int|
                0 <= j < plan.len() ==> {
                    let b = #[trigger] plan[j];
                    &&& 0 <= b.structure < n
                    &&& sizes[b.structure as int] != 0 && index_counts[b.structure as int] != 0
                    &&& b.instance_count == sizes[b.structure as int]
                }
            &&& forall|j1: int, j2: int|
                0 <= j1 < j2 < plan.len() ==> (#[trigger] plan[j1]).structure < (#[trigger] plan[j2]).structure
            &&& forall|i: int|
                0 <= i < n && sizes[i] != 0 && index_counts[i] != 0 ==> exists|j: int|
                    0 <= j < plan.len() && (#[trigger] plan[j]).structure == i
            &&& plan.len() > 0 ==> plan[0].first_instance == 0
            &&& forall|j: int|
                0 <= j < plan.len() - 1 ==> (#[trigger] plan[j + 1]).first_instance == plan[j].first_instance
                    + plan[j].instance_count
            &&& plan.len() > 0 ==> plan.last().first_instance + plan.last().instance_count
                == drawn_total(sizes, index_counts, n)
            &&& plan.len() == 0 ==> drawn_total(sizes, index_counts, n) == 0
        }),
    decreases n,
{
    if n > 0 {
        lemma_drawn_total_mono(sizes, index_counts, n - 1, n);
        lemma_plan_shape(sizes, index_counts, n - 1);
        let prev = draw_plan(sizes, index_counts, n - 1);
        let plan = draw_plan(sizes, index_counts, n);
        if drawn(sizes, index_counts, n - 1) {
            assert(plan == prev.push(
                DrawBatch {
                    structure: (n - 1) as usize,
                    first_instance: drawn_total(sizes, index_counts, n - 1) as u32,
                    instance_count: sizes[n - 1],
                },
            ));
            assert forall|i: int|
                0 <= i < n && sizes[i] != 0 && index_counts[i] != 0 implies exists|j: int|
                0 <= j < plan.len() && (#[trigger] plan[j]).structure == i by {
                if i == n - 1 {
                    assert(plan[prev.len() as int].structure == i);
                } else {
                    let j = choose|j: int| 0 <= j < prev.len() && (#[trigger] prev[j]).structure == i;
                    assert(plan[j] == prev[j]);
                }
            }
            assert forall|j: int| 0 <= j < plan.len() - 1 implies (#[trigger] plan[j + 1]).first_instance
                == plan[j].first_instance + plan[j].instance_count by {
                if j + 1 < prev.len() {
                    assert(plan[j + 1] == prev[j + 1]);
                    assert(plan[j] == prev[j]);
                } else {
                    assert(plan[j] == prev.last());
                }
            }
            assert forall|j1: int, j2: int|
                0 <= j1 < j2 < plan.len() implies (#[trigger] plan[j1]).structure < (#[trigger] plan[j2]).structure by {
                assert(plan[j1] == prev[j1]);
                if j2 < prev.len() {
                    assert(plan[j2] == prev[j2]);
                }
            }
        } else {
            assert(plan =~= prev);
        }
    }
}

/// What the draw plan holds: one batch for each group that has instances and a mesh with
/// indices, in group order, each drawing all of its group's instances; groups without
/// instances or without indices get none. The batches number the instances contiguously
/// from 0, each starting where the previous one ended.
pub proof fn law_draw_plan(sizes: Seq<u32>, index_counts: Seq<u32>)
    requires
        sizes.len() == index_counts.len(),
        sizes.len() <= usize::MAX,
        drawn_total(sizes, index_counts, sizes.len() as int) <= u32::MAX,
    ensures
        ({
            let plan = draw_plan(sizes, index_counts, sizes.len() as int);
            &&& forall|i: int|
                0 <= i < sizes.len() ==> ((exists|j: int|
                    0 <= j < plan.len() && (#[trigger] plan[j]).structure == i) <==> (sizes[i] != 0
                    && index_counts[i] != 0))
            &&& forall|j: int|
                0 <= j < plan.len() ==> (#[trigger] plan[j]).instance_count == sizes[plan[j].structure as int]
            &&& forall|j1: int, j2: int|
                0 <= j1 < j2 < plan.len() ==> (#[trigger] plan[j1]).structure < (#[trigger] plan[j2]).structure
            &&& plan.len() > 0 ==> plan[0].first_instance == 0
            &&& forall|j: int|
                0 <= j < plan.len() - 1 ==> (#[trigger] plan[j + 1]).first_instance == plan[j].first_instance
                    + plan[j].instance_count
        }),
{
    let n = sizes.len() as int;
    lemma_plan_shape(sizes, index_counts, n);
    let plan = draw_plan(sizes, index_counts, n);
    assert forall|i: int| 0 <= i < n implies ((exists|j: int|
        0 <= j < plan.len() && (#[trigger] plan[j]).structure == i) <==> (sizes[i] != 0
        && index_counts[i] != 0)) by {
        if exists|j: int| 0 <= j < plan.len() && (#[trigger] plan[j]).structure == i {
            let j = choose|j: int| 0 <= j < plan.len() && (#[trigger] plan[j]).structure == i;
            assert(plan[j].structure == i);
        }
    }
}

} // verus!
