//! Octree of points, subdivided as nodes fill up.
//!
//! The geometry of a point (its position against the bounding boxes of the
//! nodes) only decides which octant holds it at each depth of the tree. The
//! tree works on those octants: each entry carries the octant of its point
//! at every depth, from the root down.
use vstd::prelude::*;
use vstd::multiset::Multiset;
use crate::implicit_coordinates::{ImplicitCoordinates, child_coordinate};

verus! {

/// A point together with the octant that holds it at each depth
pub struct OctreeEntry<P> {
    /// `octants[d]` is the octant (0 to 7, numbered `0bZYX` as in the
    /// bounding boxes) of the point within its node at depth `d`
    pub octants: Vec<u8>,
    /// The point itself
    pub point: P,
}

/// The octant of an entry at a depth
pub open spec fn octant_at<P>(entry: OctreeEntry<P>, depth: int) -> int {
    entry.octants@[depth] as int
}

/// An entry fits a node at the end of the octant path `prefix` in a tree
/// of at most `max_depth` levels: its octants give a path down to the
/// deepest level and start with `prefix`.
pub open spec fn entry_fits<P>(entry: OctreeEntry<P>, prefix: Seq<u8>, max_depth: nat) -> bool {
    &&& entry.octants@.len() >= max_depth
    &&& prefix.len() <= max_depth
    &&& forall|d: int| 0 <= d < entry.octants@.len() ==> #[trigger] entry.octants@[d] < 8
    &&& entry.octants@.subrange(0, prefix.len() as int) == prefix
}

/// The entries whose octant at `depth` is `q`, in their order
pub open spec fn in_octant<P>(entries: Seq<OctreeEntry<P>>, depth: int, q: int) -> Seq<
    OctreeEntry<P>,
>
    decreases entries.len(),
{
    if entries.len() == 0 {
        Seq::empty()
    } else {
        let rest = in_octant(entries.drop_last(), depth, q);
        if octant_at(entries.last(), depth) == q {
            rest.push(entries.last())
        } else {
            rest
        }
    }
}

proof fn lemma_in_octant_len<P>(entries: Seq<OctreeEntry<P>>, depth: int, q: int)
    ensures
        in_octant(entries, depth, q).len() <= entries.len(),
    decreases entries.len(),
{
    if entries.len() > 0 {
        lemma_in_octant_len(entries.drop_last(), depth, q);
    }
}

/// Splitting entries by octant keeps every entry exactly once.
proof fn lemma_in_octant_partition<P>(entries: Seq<OctreeEntry<P>>, depth: int)
    requires
        forall|i: int| 0 <= i < entries.len() ==> 0 <= #[trigger] octant_at(entries[i], depth) < 8,
    ensures
        in_octant(entries, depth, 0).len() + in_octant(entries, depth, 1).len() + in_octant(
            entries,
            depth,
            2,
        ).len() + in_octant(entries, depth, 3).len() + in_octant(entries, depth, 4).len()
            + in_octant(entries, depth, 5).len() + in_octant(entries, depth, 6).len()
            + in_octant(entries, depth, 7).len() == entries.len(),
    decreases entries.len(),
{
    if entries.len() > 0 {
        let rest = entries.drop_last();
        assert forall|i: int| 0 <= i < rest.len() implies 0 <= #[trigger] octant_at(
            rest[i],
            depth,
        ) < 8 by {
            assert(rest[i] == entries[i]);
        }
        lemma_in_octant_partition(rest, depth);
        assert(0 <= octant_at(entries[entries.len() - 1], depth) < 8);
    }
}

/// The entries of an octant fit the child node of that octant.
proof fn lemma_in_octant_fits<P>(
    entries: Seq<OctreeEntry<P>>,
    prefix: Seq<u8>,
    max_depth: nat,
    q: int,
)
    requires
        prefix.len() < max_depth,
        0 <= q < 8,
        forall|i: int| 0 <= i < entries.len() ==> entry_fits(#[trigger] entries[i], prefix, max_depth),
    ensures
        forall|i: int|
            0 <= i < in_octant(entries, prefix.len() as int, q).len() ==> entry_fits(
                #[trigger] in_octant(entries, prefix.len() as int, q)[i],
                prefix.push(q as u8),
                max_depth,
            ),
    decreases entries.len(),
{
    let d = prefix.len() as int;
    if entries.len() > 0 {
        let rest = entries.drop_last();
        assert forall|i: int| 0 <= i < rest.len() implies entry_fits(
            #[trigger] rest[i],
            prefix,
            max_depth,
        ) by {
            assert(rest[i] == entries[i]);
        }
        lemma_in_octant_fits(rest, prefix, max_depth, q);
        let e = entries.last();
        assert(entry_fits(entries[entries.len() - 1], prefix, max_depth));
        let sel = in_octant(entries, d, q);
        let rest_sel = in_octant(rest, d, q);
        if octant_at(e, d) == q {
            lemma_entry_fits_child(e, prefix, max_depth);
            assert(e.octants@[d] == q as u8);
            assert(sel == rest_sel.push(e));
            assert forall|i: int| 0 <= i < sel.len() implies entry_fits(
                #[trigger] sel[i],
                prefix.push(q as u8),
                max_depth,
            ) by {
                if i < rest_sel.len() {
                    assert(sel[i] == rest_sel[i]);
                }
            }
        } else {
            assert(sel == rest_sel);
        }
    }
}

/// An entry that fits a node fits its child in the entry's octant.
proof fn lemma_entry_fits_child<P>(entry: OctreeEntry<P>, prefix: Seq<u8>, max_depth: nat)
    requires
        entry_fits(entry, prefix, max_depth),
        prefix.len() < max_depth,
    ensures
        entry_fits(entry, prefix.push(entry.octants@[prefix.len() as int]), max_depth),
        0 <= octant_at(entry, prefix.len() as int) < 8,
{
    let d = prefix.len() as int;
    assert(entry.octants@.subrange(0, d + 1) =~= entry.octants@.subrange(0, d).push(
        entry.octants@[d],
    ));
}

/// The entries in each of the 8 octants at `depth`, together
pub open spec fn octant_entries<P>(entries: Seq<OctreeEntry<P>>, depth: int) -> Multiset<OctreeEntry<P>> {
    in_octant(entries, depth, 0).to_multiset().add(in_octant(entries, depth, 1).to_multiset()).add(
        in_octant(entries, depth, 2).to_multiset(),
    ).add(in_octant(entries, depth, 3).to_multiset()).add(
        in_octant(entries, depth, 4).to_multiset(),
    ).add(in_octant(entries, depth, 5).to_multiset()).add(
        in_octant(entries, depth, 6).to_multiset(),
    ).add(in_octant(entries, depth, 7).to_multiset())
}

/// Splitting entries by octant keeps exactly the same entries.
proof fn lemma_octant_entries<P>(entries: Seq<OctreeEntry<P>>, depth: int)
    requires
        forall|i: int| 0 <= i < entries.len() ==> 0 <= #[trigger] octant_at(entries[i], depth) < 8,
    ensures
        octant_entries(entries, depth) =~= entries.to_multiset(),
    decreases entries.len(),
{
    broadcast use vstd::seq_lib::group_to_multiset_ensures;
    broadcast use vstd::multiset::group_multiset_axioms;

    if entries.len() == 0 {
        assert(entries.to_multiset() =~= Multiset::empty());
        assert forall|q: int| in_octant(entries, depth, q).to_multiset() =~= Multiset::<OctreeEntry<P>>::empty() by {
            assert(in_octant(entries, depth, q) =~= Seq::<OctreeEntry<P>>::empty());
        }
    } else {
        let rest = entries.drop_last();
        let e = entries.last();
        assert forall|i: int| 0 <= i < rest.len() implies 0 <= #[trigger] octant_at(rest[i], depth) < 8 by {
            assert(rest[i] == entries[i]);
        }
        lemma_octant_entries(rest, depth);
        assert(entries =~= rest.push(e));
        assert(0 <= octant_at(entries[entries.len() - 1], depth) < 8);
        let q0 = octant_at(e, depth);
        assert forall|q: int| #[trigger] in_octant(entries, depth, q).to_multiset() =~= (if q == q0 {
            in_octant(rest, depth, q).to_multiset().insert(e)
        } else {
            in_octant(rest, depth, q).to_multiset()
        }) by {
            if q == q0 {
                assert(in_octant(entries, depth, q) == in_octant(rest, depth, q).push(e));
            } else {
                assert(in_octant(entries, depth, q) == in_octant(rest, depth, q));
            }
        }
        assert(octant_entries(entries, depth) =~= octant_entries(rest, depth).insert(e));
    }
}

/// Whether a leaf holding `points` at `depth` takes `entry`: when it has room,
/// or, below `max_depth`, when the child that the leaf would be split into
/// for the entry's octant takes it.
pub open spec fn leaf_accepts<P>(
    points: Seq<OctreeEntry<P>>,
    entry: OctreeEntry<P>,
    depth: int,
    max_depth: int,
    capacity: int,
) -> bool
    decreases max_depth - depth,
{
    if points.len() < capacity {
        true
    } else if depth >= max_depth {
        false
    } else {
        leaf_accepts(
            in_octant(points, depth, octant_at(entry, depth)),
            entry,
            depth + 1,
            max_depth,
            capacity,
        )
    }
}

/// A copy of a vector of octants
fn copy_octants(octants: &Vec<u8>) -> (copy: Vec<u8>)
    ensures
        copy@ == octants@,
{
    let mut copy: Vec<u8> = Vec::new();
    let mut i: usize = 0;
    while i < octants.len()
        invariant
            i <= octants@.len(),
            copy@ == octants@.subrange(0, i as int),
        decreases octants@.len() - i,
    {
        copy.push(octants[i]);
        i = i + 1;
        assert(copy@ =~= octants@.subrange(0, i as int));
    }
    assert(octants@.subrange(0, i as int) =~= octants@);
    copy
}

/// The points kept by the first `q` children together.
pub open spec fn sum_kept<P>(children: Seq<OctNode<P>>, q: int) -> nat
    decreases q,
{
    if q <= 0 {
        0
    } else {
        sum_kept(children, q - 1) + children[q - 1].kept_len()
    }
}

/// The points kept by a child come before those of every later child.
proof fn lemma_sum_kept_grows<P>(children: Seq<OctNode<P>>, j: int, q: int)
    requires
        0 <= j < q,
    ensures
        sum_kept(children, j) + children[j].kept_len() <= sum_kept(children, q),
    decreases q,
{
    if q > j + 1 {
        lemma_sum_kept_grows(children, j, q - 1);
    }
}


/// The tiles of a tileset laid out like an octree: a tile for a node,
/// with one entry per child node (none for a leaf), and no tile where a
/// leaf holds no points.
pub struct TilePlan {
    /// The implicit tiling coordinates of the tile, which name its content
    pub coordinates: ImplicitCoordinates,
    /// The tiles of the children, in octant order; `None` where the child
    /// is an empty leaf
    pub children: Vec<Option<TilePlan>>,
}

/// The coordinates of child `q` of the tile at `c`: one level down, with
/// bits 0, 1 and 2 of `q` appended to x, y and z.
pub open spec fn child_tile(c: ImplicitCoordinates, q: int) -> ImplicitCoordinates {
    ImplicitCoordinates {
        subtree_levels: c.subtree_levels,
        level: (c.level + 1) as usize,
        x: child_coordinate(c.x, q % 2) as usize,
        y: child_coordinate(c.y, (q / 2) % 2) as usize,
        z: child_coordinate(c.z, (q / 4) % 2) as usize,
    }
}

/// The larger of two numbers
pub open spec fn max_nat(a: nat, b: nat) -> nat {
    if a >= b { a } else { b }
}

/// Octree node
pub struct OctNode<P> {
    /// 8 children. This is always either completely empty or completely full
    children: Vec<OctNode<P>>,
    /// Points stored in this node
    points: Vec<OctreeEntry<P>>,
    /// How many points can fit in this node
    capacity: usize,
    /// How many points were added through this node
    count: usize,
}

impl<P> OctNode<P> {
    pub closed spec fn children_view(&self) -> Seq<OctNode<P>> {
        self.children@
    }

    pub closed spec fn points_view(&self) -> Seq<OctreeEntry<P>> {
        self.points@
    }

    pub closed spec fn spec_capacity(&self) -> nat {
        self.capacity as nat
    }

    pub closed spec fn spec_count(&self) -> nat {
        self.count as nat
    }

    /// Number of points stored in the subtree
    pub closed spec fn total(self) -> nat
        decreases self,
    {
        self.points@.len() + if self.children@.len() == 8 {
            self.children@[0].total() + self.children@[1].total() + self.children@[2].total()
                + self.children@[3].total() + self.children@[4].total()
                + self.children@[5].total() + self.children@[6].total()
                + self.children@[7].total()
        } else {
            0
        }
    }

    /// The entries stored in the subtree, counted with multiplicity
    pub closed spec fn entries(self) -> Multiset<OctreeEntry<P>>
        decreases self,
    {
        self.points@.to_multiset().add(
            if self.children@.len() == 8 {
                self.children@[0].entries().add(self.children@[1].entries()).add(
                    self.children@[2].entries(),
                ).add(self.children@[3].entries()).add(self.children@[4].entries()).add(
                    self.children@[5].entries(),
                ).add(self.children@[6].entries()).add(self.children@[7].entries())
            } else {
                Multiset::empty()
            },
        )
    }

    /// Whether the subtree, whose root is at `depth`, takes `entry`: the leaf
    /// on the entry's octant path does.
    pub closed spec fn accepts(self, entry: OctreeEntry<P>, depth: int, max_depth: int) -> bool
        decreases self,
    {
        if self.children@.len() == 0 {
            leaf_accepts(self.points@, entry, depth, max_depth, self.capacity as int)
        } else if 0 <= octant_at(entry, depth) < self.children@.len() {
            self.children@[octant_at(entry, depth)].accepts(entry, depth + 1, max_depth)
        } else {
            false
        }
    }

    /// Every node has either no children or 8.
    pub closed spec fn shaped(self) -> bool
        decreases self,
    {
        self.children@.len() == 0 || (self.children@.len() == 8 && forall|q: int|
            0 <= q < 8 ==> (#[trigger] self.children@[q]).shaped())
    }

    /// How many points the node holds after decimation: its own, then those
    /// kept by each of its children in turn.
    pub closed spec fn decimated_points_len(self) -> nat
        decreases self, 0nat,
    {
        self.points@.len() + if self.children@.len() == 8 {
            self.children@[0].kept_len() + self.children@[1].kept_len()
                + self.children@[2].kept_len() + self.children@[3].kept_len()
                + self.children@[4].kept_len() + self.children@[5].kept_len()
                + self.children@[6].kept_len() + self.children@[7].kept_len()
        } else {
            0
        }
    }

    /// How many points decimation keeps of the node for its parent: one of
    /// every four (the first, fifth, and so on).
    pub closed spec fn kept_len(self) -> nat
        decreases self, 1nat,
    {
        ((self.decimated_points_len() + 3) / 4) as nat
    }

    /// The subtree is a well-formed octree below a node at the end of the
    /// octant path `prefix`: nodes have 0 or 8 children, only leaves hold
    /// points, at most `capacity` each, only nodes above `max_depth` have
    /// children, every point lies under the node of its octant path, and
    /// the points added through a node are at most those it holds.
    pub closed spec fn wf(self, prefix: Seq<u8>, capacity: nat, max_depth: nat) -> bool
        decreases self,
    {
        &&& self.capacity == capacity
        &&& self.count <= self.total()
        &&& prefix.len() <= max_depth
        &&& forall|i: int|
            0 <= i < self.points@.len() ==> entry_fits(
                #[trigger] self.points@[i],
                prefix,
                max_depth,
            )
        &&& if self.children@.len() == 0 {
            self.points@.len() <= capacity
        } else {
            &&& self.children@.len() == 8
            &&& prefix.len() < max_depth
            &&& self.points@.len() == 0
            &&& forall|q: int|
                0 <= q < 8 ==> (#[trigger] self.children@[q]).wf(
                    prefix.push(q as u8),
                    capacity,
                    max_depth,
                )
        }
    }
    /// An empty leaf is a well-formed octree at any position.
    pub proof fn lemma_empty_leaf_wf(self, prefix: Seq<u8>, max_depth: nat)
        requires
            self.children_view().len() == 0,
            self.points_view().len() == 0,
            self.spec_count() == 0,
            prefix.len() <= max_depth,
        ensures
            self.wf(prefix, self.spec_capacity(), max_depth),
            self.total() == 0,
    {
    }

    /// A well-formed octree has the shape decimation needs.
    pub proof fn lemma_wf_shaped(self, prefix: Seq<u8>, capacity: nat, max_depth: nat)
        requires
            self.wf(prefix, capacity, max_depth),
        ensures
            self.shaped(),
        decreases self,
    {
        if self.children@.len() == 8 {
            assert forall|q: int| 0 <= q < 8 implies (#[trigger] self.children@[q]).shaped() by {
                self.children@[q].lemma_wf_shaped(prefix.push(q as u8), capacity, max_depth);
            }
        }
    }

    /// What a well-formed octree is: a leaf holds at most `capacity` points;
    /// an inner node sits above `max_depth`, holds no points itself and has
    /// 8 well-formed children, child `q` at the octant path extended by `q`;
    /// every point of a node has an octant for each level and its octants
    /// start with the node's octant path.
    pub proof fn lemma_wf_unfold(self, prefix: Seq<u8>, capacity: nat, max_depth: nat)
        requires
            self.wf(prefix, capacity, max_depth),
        ensures
            self.spec_capacity() == capacity,
            self.spec_count() <= self.total(),
            forall|i: int|
                0 <= i < self.points_view().len() ==> entry_fits(
                    #[trigger] self.points_view()[i],
                    prefix,
                    max_depth,
                ),
            self.children_view().len() == 0 ==> self.points_view().len() <= capacity,
            self.children_view().len() != 0 ==> {
                &&& self.children_view().len() == 8
                &&& prefix.len() < max_depth
                &&& self.points_view().len() == 0
                &&& forall|q: int|
                    0 <= q < 8 ==> (#[trigger] self.children_view()[q]).wf(
                        prefix.push(q as u8),
                        capacity,
                        max_depth,
                    )
            },
            self.total() == self.points_view().len() + if self.children_view().len() == 8 {
                self.children_view()[0].total() + self.children_view()[1].total()
                    + self.children_view()[2].total() + self.children_view()[3].total()
                    + self.children_view()[4].total() + self.children_view()[5].total()
                    + self.children_view()[6].total() + self.children_view()[7].total()
            } else {
                0
            },
    {
    }

    /// Create an empty root node. Its bounds (a cube around the origin) are
    /// kept by the caller, who derives the bounds of every other node from
    /// them.
    pub fn root_node(capacity: usize) -> (node: Self)
        ensures
            node.entries() == Multiset::<OctreeEntry<P>>::empty(),
            node.children_view().len() == 0,
            node.points_view().len() == 0,
            node.spec_capacity() == capacity,
            node.spec_count() == 0,
            node.total() == 0,
    {
        let node = Self { children: Vec::new(), points: Vec::new(), capacity, count: 0 };
        proof {
            broadcast use vstd::seq_lib::group_to_multiset_ensures;
            broadcast use vstd::multiset::group_multiset_axioms;
            assert(node.points@ =~= Seq::<OctreeEntry<P>>::empty());
            assert(node.entries() =~= Multiset::<OctreeEntry<P>>::empty());
        }
        node
    }

    /// Create an empty child node
    pub fn child_node(capacity: usize) -> (node: Self)
        ensures
            node.entries() == Multiset::<OctreeEntry<P>>::empty(),
            node.children_view().len() == 0,
            node.points_view().len() == 0,
            node.spec_capacity() == capacity,
            node.spec_count() == 0,
            node.total() == 0,
    {
        let node = Self { children: Vec::new(), points: Vec::new(), capacity, count: 0 };
        proof {
            broadcast use vstd::seq_lib::group_to_multiset_ensures;
            broadcast use vstd::multiset::group_multiset_axioms;
            assert(node.points@ =~= Seq::<OctreeEntry<P>>::empty());
            assert(node.entries() =~= Multiset::<OctreeEntry<P>>::empty());
        }
        node
    }

    /// Check if a node is a leaf node by checking that it has no children
    pub fn is_leaf(&self) -> (leaf: bool)
        ensures
            leaf == (self.children_view().len() == 0),
    {
        self.children.len() == 0
    }

    /// Check if a node is full up to capacity
    pub fn is_full(&self) -> (full: bool)
        ensures
            full == (self.points_view().len() == self.spec_capacity()),
    {
        self.points.len() == self.capacity
    }

    /// Number of levels below the node
    pub closed spec fn height(self) -> nat
        decreases self,
    {
        if self.children@.len() == 8 {
            1 + max_nat(
                max_nat(
                    max_nat(self.children@[0].height(), self.children@[1].height()),
                    max_nat(self.children@[2].height(), self.children@[3].height()),
                ),
                max_nat(
                    max_nat(self.children@[4].height(), self.children@[5].height()),
                    max_nat(self.children@[6].height(), self.children@[7].height()),
                ),
            )
        } else {
            0
        }
    }

    /// `plan` is the tile plan of the subtree, whose root tile has the
    /// coordinates `c`: no tile for an empty leaf; otherwise a tile at `c`
    /// with the plans of the children, child `q` at the coordinates of child
    /// `q` of `c`.
    pub closed spec fn is_tile_plan(self, plan: Option<TilePlan>, c: ImplicitCoordinates) -> bool
        decreases self,
    {
        if self.children@.len() == 0 && self.points@.len() == 0 {
            plan is None
        } else {
            &&& plan is Some
            &&& plan->0.coordinates == c
            &&& plan->0.children@.len() == self.children@.len()
            &&& self.children@.len() == 8 ==> {
                &&& self.children@[0].is_tile_plan(plan->0.children@[0], child_tile(c, 0))
                &&& self.children@[1].is_tile_plan(plan->0.children@[1], child_tile(c, 1))
                &&& self.children@[2].is_tile_plan(plan->0.children@[2], child_tile(c, 2))
                &&& self.children@[3].is_tile_plan(plan->0.children@[3], child_tile(c, 3))
                &&& self.children@[4].is_tile_plan(plan->0.children@[4], child_tile(c, 4))
                &&& self.children@[5].is_tile_plan(plan->0.children@[5], child_tile(c, 5))
                &&& self.children@[6].is_tile_plan(plan->0.children@[6], child_tile(c, 6))
                &&& self.children@[7].is_tile_plan(plan->0.children@[7], child_tile(c, 7))
            }
        }
    }

    /// What the entries of a subtree are: the node's points, and when it has
    /// 8 children, their entries.
    pub proof fn lemma_entries_unfold(self)
        ensures
            self.entries() == self.points_view().to_multiset().add(
                if self.children_view().len() == 8 {
                    self.children_view()[0].entries().add(self.children_view()[1].entries()).add(
                        self.children_view()[2].entries(),
                    ).add(self.children_view()[3].entries()).add(
                        self.children_view()[4].entries(),
                    ).add(self.children_view()[5].entries()).add(
                        self.children_view()[6].entries(),
                    ).add(self.children_view()[7].entries())
                } else {
                    Multiset::empty()
                },
            ),
    {
    }

    /// Which entries a subtree takes: a leaf takes what `leaf_accepts` says
    /// for its points and capacity; an inner node, what its child in the
    /// entry's octant takes one level down.
    pub proof fn lemma_accepts_unfold(self, entry: OctreeEntry<P>, depth: int, max_depth: int)
        ensures
            self.accepts(entry, depth, max_depth) == if self.children_view().len() == 0 {
                leaf_accepts(
                    self.points_view(),
                    entry,
                    depth,
                    max_depth,
                    self.spec_capacity() as int,
                )
            } else if 0 <= octant_at(entry, depth) < self.children_view().len() {
                self.children_view()[octant_at(entry, depth)].accepts(entry, depth + 1, max_depth)
            } else {
                false
            },
    {
    }

    /// How many levels a subtree has below its node: none for a leaf, one
    /// more than its children for a node with 8 children.
    pub proof fn lemma_height_unfold(self)
        ensures
            self.children_view().len() != 8 ==> self.height() == 0,
            self.children_view().len() == 8 ==> forall|q: int|
                0 <= q < 8 ==> #[trigger] self.children_view()[q].height() < self.height(),
    {
        if self.children@.len() == 8 {
            assert forall|q: int| 0 <= q < 8 implies #[trigger] self.children@[q].height() < self.height() by {
                assert(q == 0 || q == 1 || q == 2 || q == 3 || q == 4 || q == 5 || q == 6 || q == 7);
            }
        }
    }

    /// What a tile plan of a subtree is: no tile for an empty leaf;
    /// otherwise a tile at the given coordinates with one entry per child,
    /// and for a node with 8 children, the plan of child `q` at the
    /// coordinates of child `q`.
    pub proof fn lemma_tile_plan_unfold(self, plan: Option<TilePlan>, c: ImplicitCoordinates)
        ensures
            self.is_tile_plan(plan, c) == if self.children_view().len() == 0
                && self.points_view().len() == 0 {
                plan is None
            } else {
                &&& plan is Some
                &&& plan->0.coordinates == c
                &&& plan->0.children@.len() == self.children_view().len()
                &&& self.children_view().len() == 8 ==> forall|q: int|
                    0 <= q < 8 ==> #[trigger] self.children_view()[q].is_tile_plan(
                        plan->0.children@[q],
                        child_tile(c, q),
                    )
            },
    {
        if !(self.children@.len() == 0 && self.points@.len() == 0) && self.children@.len() == 8
            && plan is Some {
            let t = plan->0;
            if (forall|q: int|
                0 <= q < 8 ==> #[trigger] self.children@[q].is_tile_plan(t.children@[q], child_tile(c, q))) {
                assert(self.children@[0].is_tile_plan(t.children@[0], child_tile(c, 0)));
                assert(self.children@[1].is_tile_plan(t.children@[1], child_tile(c, 1)));
                assert(self.children@[2].is_tile_plan(t.children@[2], child_tile(c, 2)));
                assert(self.children@[3].is_tile_plan(t.children@[3], child_tile(c, 3)));
                assert(self.children@[4].is_tile_plan(t.children@[4], child_tile(c, 4)));
                assert(self.children@[5].is_tile_plan(t.children@[5], child_tile(c, 5)));
                assert(self.children@[6].is_tile_plan(t.children@[6], child_tile(c, 6)));
                assert(self.children@[7].is_tile_plan(t.children@[7], child_tile(c, 7)));
            }
            if self.is_tile_plan(plan, c) {
                assert forall|q: int| 0 <= q < 8 implies #[trigger] self.children@[q].is_tile_plan(
                    t.children@[q],
                    child_tile(c, q),
                ) by {
                    assert(q == 0 || q == 1 || q == 2 || q == 3 || q == 4 || q == 5 || q == 6 || q == 7);
                }
            }
        }
    }

    /// A well-formed octree has at most as many levels below it as remain
    /// to the maximum depth.
    pub proof fn lemma_wf_height(self, prefix: Seq<u8>, capacity: nat, max_depth: nat)
        requires
            self.wf(prefix, capacity, max_depth),
        ensures
            self.height() + prefix.len() <= max_depth,
        decreases self,
    {
        if self.children@.len() == 8 {
            assert forall|q: int| 0 <= q < 8 implies #[trigger] self.children@[q].height() + prefix.len()
                + 1 <= max_depth by {
                self.children@[q].lemma_wf_height(prefix.push(q as u8), capacity, max_depth);
            }
            assert(self.children@[0].height() + prefix.len() + 1 <= max_depth);
            assert(self.children@[1].height() + prefix.len() + 1 <= max_depth);
            assert(self.children@[2].height() + prefix.len() + 1 <= max_depth);
            assert(self.children@[3].height() + prefix.len() + 1 <= max_depth);
            assert(self.children@[4].height() + prefix.len() + 1 <= max_depth);
            assert(self.children@[5].height() + prefix.len() + 1 <= max_depth);
            assert(self.children@[6].height() + prefix.len() + 1 <= max_depth);
            assert(self.children@[7].height() + prefix.len() + 1 <= max_depth);
        }
    }

    /// The tile plan of the subtree, whose root tile has the coordinates `c`
    pub fn tile_plan(&self, c: &ImplicitCoordinates) -> (plan: Option<TilePlan>)
        requires
            self.shaped(),
            c.level + self.height() <= usize::MAX,
        ensures
            self.is_tile_plan(plan, *c),
        decreases self,
    {
        if self.children.len() == 0 && self.points.len() == 0 {
            return None;
        }
        let mut children: Vec<Option<TilePlan>> = Vec::new();
        let mut q: usize = 0;
        while q < self.children.len()
            invariant
                q <= self.children@.len(),
                children@.len() == q,
                c.level + self.height() <= usize::MAX,
                self.shaped(),
                forall|j: int|
                    0 <= j < q ==> #[trigger] self.children@[j].is_tile_plan(
                        children@[j],
                        child_tile(*c, j),
                    ),
            decreases self.children@.len() - q,
        {
            assert(decreases_to!(self => self.children@[q as int])) by {
                assert(decreases_to!(self => self.children));
                assert(decreases_to!(self.children => self.children@));
                assert(decreases_to!(self.children@ => self.children@[q as int]));
            }
            assert(self.children@[q as int].shaped());
            assert(self.children@[q as int].height() < self.height()) by {
                assert(self.children@.len() == 8);
                assert(q == 0 || q == 1 || q == 2 || q == 3 || q == 4 || q == 5 || q == 6 || q == 7);
            }
            let child_coordinates = c.get_child_coordinates(q);
            assert(child_coordinates == child_tile(*c, q as int));
            let plan = self.children[q].tile_plan(&child_coordinates);
            children.push(plan);
            q = q + 1;
        }
        let coordinates = ImplicitCoordinates {
            subtree_levels: c.subtree_levels,
            level: c.level,
            x: c.x,
            y: c.y,
            z: c.z,
        };
        let ghost kids = children@;
        let plan = Some(TilePlan { coordinates, children });
        proof {
            assert(plan->0.children@ == kids);
            if self.children@.len() == 8 {
                assert(self.children@[0].is_tile_plan(kids[0], child_tile(*c, 0)));
                assert(self.children@[1].is_tile_plan(kids[1], child_tile(*c, 1)));
                assert(self.children@[2].is_tile_plan(kids[2], child_tile(*c, 2)));
                assert(self.children@[3].is_tile_plan(kids[3], child_tile(*c, 3)));
                assert(self.children@[4].is_tile_plan(kids[4], child_tile(*c, 4)));
                assert(self.children@[5].is_tile_plan(kids[5], child_tile(*c, 5)));
                assert(self.children@[6].is_tile_plan(kids[6], child_tile(*c, 6)));
                assert(self.children@[7].is_tile_plan(kids[7], child_tile(*c, 7)));
            }
        }
        plan
    }

    /// Check if a node has no points
    pub fn is_empty(&self) -> (empty: bool)
        ensures
            empty == (self.points_view().len() == 0),
    {
        self.points.len() == 0
    }

    /// Borrow the points. This is used when writing data to disk
    pub fn get_points(&self) -> (points: &Vec<OctreeEntry<P>>)
        ensures
            points@ == self.points_view(),
    {
        &self.points
    }

    /// Borrow the children, ordered by octant
    pub fn get_children(&self) -> (children: &Vec<OctNode<P>>)
        ensures
            children@ == self.children_view(),
    {
        &self.children
    }

    /// Return pairs of (octant, child) for each child in an internal node
    pub fn labeled_children(&self) -> (labeled: Vec<(usize, &OctNode<P>)>)
        ensures
            labeled@.len() == self.children_view().len(),
            forall|q: int|
                0 <= q < labeled@.len() ==> (#[trigger] labeled@[q]).0 == q && *labeled@[q].1
                    == self.children_view()[q],
    {
        let mut labeled: Vec<(usize, &OctNode<P>)> = Vec::new();
        let mut q: usize = 0;
        while q < self.children.len()
            invariant
                q <= self.children@.len(),
                labeled@.len() == q,
                forall|j: int|
                    0 <= j < q ==> (#[trigger] labeled@[j]).0 == j && *labeled@[j].1
                        == self.children@[j],
            decreases self.children@.len() - q,
        {
            labeled.push((q, &self.children[q]));
            q = q + 1;
        }
        labeled
    }

    /// Subdivide a leaf node into an interior node with 8 children, one
    /// per octant, and move each point to the child of its octant.
    fn subdivide(&mut self, depth: usize, Ghost(prefix): Ghost<Seq<u8>>, Ghost(max_depth): Ghost<nat>)
        requires
            old(self).wf(prefix, old(self).capacity as nat, max_depth),
            old(self).children@.len() == 0,
            depth == prefix.len(),
            depth < max_depth,
        ensures
            final(self).wf(prefix, old(self).capacity as nat, max_depth),
            final(self).total() == old(self).total(),
            final(self).entries() == old(self).entries(),
            final(self).children@.len() == 8,
            final(self).count == old(self).count,
            final(self).capacity == old(self).capacity,
            forall|q: int|
                0 <= q < 8 ==> (#[trigger] final(self).children@[q]).points@ == in_octant(
                    old(self).points@,
                    depth as int,
                    q,
                ),
            forall|q: int|
                0 <= q < 8 ==> {
                    &&& (#[trigger] final(self).children@[q]).children@.len() == 0
                    &&& final(self).children@[q].capacity == old(self).capacity
                },
    {
        let ghost initial = self.points@;
        let ghost cap = self.capacity as nat;
        let mut old_points: Vec<OctreeEntry<P>> = Vec::new();
        std::mem::swap(&mut old_points, &mut self.points);
        // Reverse the points onto a stack so that popping gives them back
        // in their order.
        let mut stack: Vec<OctreeEntry<P>> = Vec::new();
        while old_points.len() > 0
            invariant
                old_points@ + stack@.reverse() == initial,
            decreases old_points@.len(),
        {
            let ghost before = old_points@;
            let entry = old_points.pop().unwrap();
            stack.push(entry);
            assert(old_points@ + stack@.reverse() =~= initial);
        }
        assert(stack@.reverse() =~= initial);
        let mut children: Vec<OctNode<P>> = Vec::new();
        let mut q: usize = 0;
        while q < 8
            invariant
                q <= 8,
                cap == self.capacity,
                children@.len() == q,
                forall|j: int|
                    0 <= j < q ==> {
                        &&& (#[trigger] children@[j]).children@.len() == 0
                        &&& children@[j].points@.len() == 0
                        &&& children@[j].capacity == cap
                        &&& children@[j].count == 0
                    },
            decreases 8 - q,
        {
            children.push(Self::child_node(self.capacity));
            q = q + 1;
        }
        let ghost n = initial.len();
        while stack.len() > 0
            invariant
                children@.len() == 8,
                n == initial.len(),
                cap == self.capacity,
                stack@.reverse() == initial.subrange(n - stack@.len(), n as int),
                stack@.len() <= n,
                forall|j: int|
                    0 <= j < 8 ==> {
                        &&& (#[trigger] children@[j]).children@.len() == 0
                        &&& children@[j].points@ == in_octant(
                            initial.subrange(0, n - stack@.len()),
                            depth as int,
                            j,
                        )
                        &&& children@[j].capacity == cap
                        &&& children@[j].count == 0
                    },
                forall|i: int| 0 <= i < n ==> entry_fits(#[trigger] initial[i], prefix, max_depth),
                depth == prefix.len(),
                depth < max_depth,
            decreases stack@.len(),
        {
            let ghost done = (n - stack@.len()) as int;
            let ghost old_stack = stack@;
            let entry = stack.pop().unwrap();
            assert(entry == initial[done]) by {
                assert(old_stack == stack@.push(entry));
                assert(old_stack.reverse()[0] == old_stack[old_stack.len() - 1]);
                assert(initial.subrange(done, n as int)[0] == initial[done]);
            }
            assert(old_stack == stack@.push(entry));
            assert(stack@.reverse() =~= old_stack.reverse().subrange(1, old_stack.len() as int));
            assert(stack@.reverse() =~= initial.subrange(done + 1, n as int));
            assert(entry_fits(initial[done], prefix, max_depth));
            proof {
                lemma_entry_fits_child(entry, prefix, max_depth);
            }
            let octant = entry.octants[depth] as usize;
            children[octant].points.push(entry);
            assert(initial.subrange(0, done + 1).drop_last() =~= initial.subrange(0, done));
        }
        assert(initial.subrange(0, n as int) =~= initial);
        self.children = children;
        proof {
            lemma_in_octant_partition(initial, depth as int);
            assert forall|i: int| 0 <= i < n implies 0 <= #[trigger] octant_at(
                initial[i],
                depth as int,
            ) < 8 by {
                lemma_entry_fits_child(initial[i], prefix, max_depth);
            }
            lemma_in_octant_partition(initial, depth as int);
            assert forall|j: int| 0 <= j < 8 implies (#[trigger] self.children@[j]).wf(
                prefix.push(j as u8),
                cap,
                max_depth,
            ) by {
                lemma_in_octant_len(initial, depth as int, j);
                lemma_in_octant_fits(initial, prefix, max_depth, j);
                assert(self.children@[j].total() == self.children@[j].points@.len());
            }
            assert forall|j: int| 0 <= j < 8 implies (#[trigger] self.children@[j]).entries()
                =~= in_octant(initial, depth as int, j).to_multiset() by {
                assert(self.children@[j].points@.to_multiset().add(Multiset::empty())
                    =~= self.children@[j].points@.to_multiset());
            }
            lemma_octant_entries(initial, depth as int);
            assert(self.points@.to_multiset() =~= Multiset::<OctreeEntry<P>>::empty()) by {
                broadcast use vstd::seq_lib::group_to_multiset_ensures;
                assert(self.points@ =~= Seq::<OctreeEntry<P>>::empty());
            }
            assert(self.entries() =~= octant_entries(initial, depth as int));
            assert(old(self).entries() =~= initial.to_multiset());
        }
    }
    /// Add a point to the octree recursively. If there are already many points
    /// in the relevant leaf node, the point may be discarded.
    ///
    /// This returns true if the point was added, or false if the point was
    /// discarded because it didn't fit.
    fn add_point_recursive(
        &mut self,
        entry: OctreeEntry<P>,
        depth: u8,
        max_depth: u8,
        Ghost(prefix): Ghost<Seq<u8>>,
    ) -> (added: bool)
        requires
            old(self).wf(prefix, old(self).capacity as nat, max_depth as nat),
            depth == prefix.len(),
            depth <= max_depth,
            entry_fits(entry, prefix, max_depth as nat),
            old(self).total() < usize::MAX,
        ensures
            final(self).wf(prefix, old(self).capacity as nat, max_depth as nat),
            final(self).capacity == old(self).capacity,
            added == old(self).accepts(entry, depth as int, max_depth as int),
            added ==> final(self).total() == old(self).total() + 1,
            !added ==> final(self).total() == old(self).total(),
            added ==> final(self).entries() == old(self).entries().insert(entry),
            !added ==> final(self).entries() == old(self).entries(),
            final(self).count == old(self).count + if added { 1int } else { 0int },
        decreases max_depth - depth, (if old(self).children@.len() == 0 {
            1int
        } else {
            0int
        }),
    {
        let is_leaf = self.is_leaf();
        let is_full = self.is_full();
        if is_leaf && !is_full {
            // Base case 1: We're at a leaf with some space. just add the point.
            let ghost before = *self;
            self.count += 1;
            self.points.push(entry);
            proof {
                broadcast use vstd::seq_lib::group_to_multiset_ensures;
                broadcast use vstd::multiset::group_multiset_axioms;
                assert(self.points@ == before.points@.push(entry));
                assert(self.entries() =~= before.entries().insert(entry));
            }
            return true;
        } else if is_leaf && depth < max_depth {
            // Base case 2: We're at a full leaf. Subdivide this node and
            // retry the add operation on this node which is now an internal
            // node. Note that this always produces 8 children
            let ghost before = *self;
            self.subdivide(depth as usize, Ghost(prefix), Ghost(max_depth as nat));
            proof {
                lemma_entry_fits_child(entry, prefix, max_depth as nat);
                let q = octant_at(entry, depth as int);
                assert(self.children@[q].points@ == in_octant(before.points@, depth as int, q));
                assert(before.points@.len() == before.capacity);
                assert(before.accepts(entry, depth as int, max_depth as int) == leaf_accepts(
                    in_octant(before.points@, depth as int, q),
                    entry,
                    depth + 1,
                    max_depth as int,
                    before.capacity as int,
                ));
                assert(self.children@[q].accepts(entry, depth + 1, max_depth as int)
                    == leaf_accepts(
                    in_octant(before.points@, depth as int, q),
                    entry,
                    depth + 1,
                    max_depth as int,
                    before.capacity as int,
                ));
                assert(self.accepts(entry, depth as int, max_depth as int) == before.accepts(
                    entry,
                    depth as int,
                    max_depth as int,
                ));
            }
            return self.add_point_recursive(entry, depth, max_depth, Ghost(prefix));
        } else if is_leaf {
            // Base case 3: We're at a full leaf but we've hit the depth
            // limit. Just discard the point to prevent infinite loops
            return false;
        } else {
            // Recursive case: Find the octant which the point is in, and
            // insert into the child node
            proof {
                lemma_entry_fits_child(entry, prefix, max_depth as nat);
            }
            let quadrant = entry.octants[depth as usize] as usize;
            let ghost child_prefix = prefix.push(quadrant as u8);
            assert(self.children@[quadrant as int].wf(child_prefix, self.capacity as nat, max_depth as nat));
            let result = self.children[quadrant].add_point_recursive(
                entry,
                depth + 1,
                max_depth,
                Ghost(child_prefix),
            );
            if result {
                self.count += 1;
            }
            proof {
                broadcast use vstd::multiset::group_multiset_axioms;
                let q = quadrant as int;
                assert forall|j: int| 0 <= j < 8 && j != q implies #[trigger] self.children@[j] == old(self).children@[j] by {}
                if result {
                    assert(self.entries() =~= old(self).entries().insert(entry));
                } else {
                    assert(self.entries() =~= old(self).entries());
                }
            }
            return result;
        }
    }

    /// Add a point from the top of the tree down. If this overfills a node,
    /// subdivide it as necessary, up to the given max depth. Points outside
    /// the root's bounds are discarded by the caller before.
    pub fn add_point(&mut self, entry: OctreeEntry<P>, max_depth: u8) -> (added: bool)
        requires
            old(self).wf(Seq::empty(), old(self).spec_capacity(), max_depth as nat),
            entry_fits(entry, Seq::empty(), max_depth as nat),
            old(self).total() < usize::MAX,
        ensures
            final(self).wf(Seq::empty(), old(self).spec_capacity(), max_depth as nat),
            final(self).spec_capacity() == old(self).spec_capacity(),
            added ==> final(self).total() == old(self).total() + 1,
            !added ==> final(self).total() == old(self).total(),
            added ==> final(self).entries() == old(self).entries().insert(entry),
            !added ==> final(self).entries() == old(self).entries(),
            final(self).spec_count() == old(self).spec_count() + if added { 1int } else { 0int },
            added == old(self).accepts(entry, 0, max_depth as int),
    {
        self.add_point_recursive(entry, 0, max_depth, Ghost(Seq::empty()))
    }
}


impl<P: Clone> OctNode<P> {
    /// After decimation, the `k`-th point that child `q` passed up to this
    /// node (from a node that was `before`) is a copy of the child's point
    /// `4 k`: it comes after the node's own points and those passed up by the
    /// children before `q`.
    pub open spec fn passed_up(self, before: OctNode<P>, q: int, k: int) -> bool {
        let moved = self.points_view()[before.points_view().len() + sum_kept(
            before.children_view(),
            q,
        ) + k];
        let source = self.children_view()[q].points_view()[4 * k];
        &&& moved.octants@ == source.octants@
        &&& cloned(source.point, moved.point)
    }

    /// Decimate the tree recursively to generate levels of detail: each node
    /// takes in the points kept by its children, in octant order after its
    /// own, and keeps one of every four of its points (the first, the
    /// fifth, and so on) for its parent.
    pub fn decimate(&mut self) -> (kept: Vec<OctreeEntry<P>>)
        requires
            old(self).shaped(),
        ensures
            final(self).shaped(),
            final(self).children_view().len() == old(self).children_view().len(),
            final(self).points_view().len() == old(self).decimated_points_len(),
            final(self).points_view().subrange(0, old(self).points_view().len() as int) == old(
                self,
            ).points_view(),
            kept@.len() == old(self).kept_len(),
            old(self).children_view().len() == 8 ==> forall|q: int, k: int|
                0 <= q < 8 && 0 <= k < old(self).children_view()[q].kept_len()
                    ==> #[trigger] final(self).passed_up(*old(self), q, k),
            forall|k: int|
                0 <= k < kept@.len() ==> {
                    &&& (#[trigger] kept@[k]).octants@ == final(self).points_view()[4 * k].octants@
                    &&& cloned(final(self).points_view()[4 * k].point, kept@[k].point)
                },
        decreases *old(self),
    {
        let ghost initial = *self;
        let mut q: usize = 0;
        while q < self.children.len()
            invariant
                initial == *old(self),
                initial.shaped(),
                self.children@.len() == initial.children@.len(),
                q <= self.children@.len(),
                forall|j: int|
                    q <= j < self.children@.len() ==> #[trigger] self.children@[j]
                        == initial.children@[j],
                forall|j: int| 0 <= j < q ==> (#[trigger] self.children@[j]).shaped(),
                self.points@.len() == initial.points@.len() + sum_kept(initial.children@, q as int),
                self.points@.subrange(0, initial.points@.len() as int) == initial.points@,
                forall|j: int, k: int|
                    0 <= j < q && 0 <= k < initial.children@[j].kept_len()
                        ==> #[trigger] self.passed_up(initial, j, k),
            decreases self.children@.len() - q,
        {
            assert(self.children@[q as int] == initial.children@[q as int]);
            assert(decreases_to!(initial => initial.children@[q as int])) by {
                assert(decreases_to!(initial => initial.children));
                assert(decreases_to!(initial.children => initial.children@));
                assert(decreases_to!(initial.children@ => initial.children@[q as int]));
            }
            let ghost pre = *self;
            let ghost children_before = self.children@;
            let mut child_points = self.children[q].decimate();
            let ghost before = self.points@;
            let ghost appended = child_points@;
            self.points.append(&mut child_points);
            assert(self.points@.subrange(0, initial.points@.len() as int) =~= before.subrange(
                0,
                initial.points@.len() as int,
            ));
            proof {
                let n = initial.points@.len();
                assert(self.points@ == before + appended);
                assert forall|j: int| 0 <= j < q implies #[trigger] self.children@[j] == children_before[j] by {}
                assert forall|j: int, k: int|
                    0 <= j < q + 1 && 0 <= k < initial.children@[j].kept_len()
                        implies #[trigger] self.passed_up(initial, j, k) by {
                    if j < q {
                        assert(pre.passed_up(initial, j, k));
                        lemma_sum_kept_grows(initial.children@, j, q as int);
                        assert(self.points@[n + sum_kept(initial.children@, j) + k] == before[n
                            + sum_kept(initial.children@, j) + k]);
                        assert(self.children@[j] == pre.children@[j]);
                    } else {
                        assert(j == q);
                        assert(appended.len() == initial.children@[j].kept_len());
                        assert(self.points@[n + sum_kept(initial.children@, j) + k] == appended[k]);
                        assert(appended[k].octants@ == self.children@[j].points@[4 * k].octants@);
                    }
                }
            }
            q = q + 1;
        }
        proof {
            reveal_with_fuel(sum_kept, 9);
        }
        let mut kept: Vec<OctreeEntry<P>> = Vec::new();
        let mut i: usize = 0;
        while i < self.points.len()
            invariant
                i <= self.points@.len(),
                kept@.len() == (i + 3) / 4,
                forall|k: int|
                    0 <= k < kept@.len() ==> {
                        &&& (#[trigger] kept@[k]).octants@ == self.points@[4 * k].octants@
                        &&& cloned(self.points@[4 * k].point, kept@[k].point)
                    },
            decreases self.points@.len() - i,
        {
            if i % 4 == 0 {
                let entry = &self.points[i];
                let copy = OctreeEntry { octants: copy_octants(&entry.octants), point: entry.point.clone() };
                kept.push(copy);
            }
            i = i + 1;
        }
        kept
    }
}

} // verus!
