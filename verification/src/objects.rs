//! The tree of emitted objects and the tally of its kinds.

use vstd::prelude::*;

verus! {

/// One emitted object: a flat kind, or a group that holds objects in order.
#[derive(Debug)]
pub enum Objects {
    Arc,
    Ellipse,
    Polygon,
    Line,
    Text,
    DynamicText,
    Group(Vec<Objects>),
}

/// The kinds that the tally tells apart.
#[derive(Debug, Clone, Copy, PartialEq, Eq, Structural)]
pub enum ObjectKind {
    Arc,
    Ellipse,
    Polygon,
    Line,
    Text,
    DynamicText,
    Group,
}

impl Objects {
    /// The kind of the object.
    pub fn kind_of(&self) -> (k: ObjectKind)
        ensures
            k == self.kind(),
    {
        match self {
            Objects::Arc => ObjectKind::Arc,
            Objects::Ellipse => ObjectKind::Ellipse,
            Objects::Polygon => ObjectKind::Polygon,
            Objects::Line => ObjectKind::Line,
            Objects::Text => ObjectKind::Text,
            Objects::DynamicText => ObjectKind::DynamicText,
            Objects::Group(_) => ObjectKind::Group,
        }
    }

    pub open spec fn kind(&self) -> ObjectKind {
        match self {
            Objects::Arc => ObjectKind::Arc,
            Objects::Ellipse => ObjectKind::Ellipse,
            Objects::Polygon => ObjectKind::Polygon,
            Objects::Line => ObjectKind::Line,
            Objects::Text => ObjectKind::Text,
            Objects::DynamicText => ObjectKind::DynamicText,
            Objects::Group(_) => ObjectKind::Group,
        }
    }
}

/// The number of objects of kind `k` among the first `n` of `objs` and in
/// the groups under them, at any depth.
pub open spec fn count_kind(objs: Seq<Objects>, n: nat, k: ObjectKind) -> nat
    decreases objs, n,
{
    if n == 0 || n > objs.len() {
        0
    } else {
        let here: nat = if objs[n - 1].kind() == k {
            1
        } else {
            0
        };
        let below: nat = match objs[n - 1] {
            Objects::Group(children) => count_kind(children@, children@.len(), k),
            _ => 0,
        };
        count_kind(objs, (n - 1) as nat, k) + here + below
    }
}

/// The number of objects among the first `n` of `objs` and in the groups
/// under them, at any depth, each group counted as one object more.
pub open spec fn tree_size(objs: Seq<Objects>, n: nat) -> nat
    decreases objs, n,
{
    if n == 0 || n > objs.len() {
        0
    } else {
        let below: nat = match objs[n - 1] {
            Objects::Group(children) => tree_size(children@, children@.len()),
            _ => 0,
        };
        tree_size(objs, (n - 1) as nat) + 1 + below
    }
}

/// The counts of emitted objects, by kind. Circles are emitted as ellipses
/// and are counted with them; splines and polylines are polygons.
#[derive(Debug, Clone, Copy, PartialEq, Eq, Structural)]
pub struct ObjectTally {
    pub circles: u32,
    pub lines: u32,
    pub arcs: u32,
    pub polygons: u32,
    pub dynamic_texts: u32,
    pub texts: u32,
    pub groups: u32,
}

impl ObjectTally {
    /// The count that the tally holds for kind `k`.
    pub open spec fn count(&self, k: ObjectKind) -> nat {
        match k {
            ObjectKind::Arc => self.arcs as nat,
            ObjectKind::Ellipse => self.circles as nat,
            ObjectKind::Polygon => self.polygons as nat,
            ObjectKind::Line => self.lines as nat,
            ObjectKind::Text => self.texts as nat,
            ObjectKind::DynamicText => self.dynamic_texts as nat,
            ObjectKind::Group => self.groups as nat,
        }
    }

    /// The sum of all counts.
    pub open spec fn sum(&self) -> nat {
        (self.circles + self.lines + self.arcs + self.polygons + self.dynamic_texts + self.texts
            + self.groups) as nat
    }

    /// A tally of nothing.
    pub fn new() -> (tally: Self)
        ensures
            forall|k: ObjectKind| tally.count(k) == 0,
            tally.sum() == 0,
    {
        ObjectTally {
            circles: 0,
            lines: 0,
            arcs: 0,
            polygons: 0,
            dynamic_texts: 0,
            texts: 0,
            groups: 0,
        }
    }

    /// Counts one object more of kind `kind`.
    pub fn record(&mut self, kind: ObjectKind)
        requires
            old(self).sum() < u32::MAX,
        ensures
            forall|k: ObjectKind| #[trigger]
                final(self).count(k) == old(self).count(k) + (if k == kind {
                    1nat
                } else {
                    0nat
                }),
            final(self).sum() == old(self).sum() + 1,
    {
        match kind {
            ObjectKind::Arc => {
                self.arcs += 1;
            },
            ObjectKind::Ellipse => {
                self.circles += 1;
            },
            ObjectKind::Polygon => {
                self.polygons += 1;
            },
            ObjectKind::Line => {
                self.lines += 1;
            },
            ObjectKind::Text => {
                self.texts += 1;
            },
            ObjectKind::DynamicText => {
                self.dynamic_texts += 1;
            },
            ObjectKind::Group => {
                self.groups += 1;
            },
        }
    }

    /// The sum of all counts.
    pub fn total(&self) -> (t: u64)
        ensures
            t == self.sum(),
    {
        let flat: u64 = self.circles as u64 + self.lines as u64 + self.arcs as u64
            + self.polygons as u64;
        flat + self.dynamic_texts as u64 + self.texts as u64 + self.groups as u64
    }
}

/// The sum, over all kinds, of the objects of each kind in a tree.
pub open spec fn sum_of_kinds(objs: Seq<Objects>, n: nat) -> nat {
    count_kind(objs, n, ObjectKind::Arc) + count_kind(objs, n, ObjectKind::Ellipse) + count_kind(
        objs,
        n,
        ObjectKind::Polygon,
    ) + count_kind(objs, n, ObjectKind::Line) + count_kind(objs, n, ObjectKind::Text) + count_kind(
        objs,
        n,
        ObjectKind::DynamicText,
    ) + count_kind(objs, n, ObjectKind::Group)
}

/// The counts by kind add up to the number of objects visited: every object
/// of a tree, the groups and what they hold included, is counted under
/// exactly one kind.
pub proof fn lemma_emitted_counts_conserved(objs: Seq<Objects>, n: nat)
    requires
        n <= objs.len(),
    ensures
        sum_of_kinds(objs, n) == tree_size(objs, n),
    decreases objs, n,
{
    if n > 0 {
        lemma_emitted_counts_conserved(objs, (n - 1) as nat);
        match objs[n - 1] {
            Objects::Group(children) => {
                lemma_emitted_counts_conserved(children@, children@.len());
            },
            _ => {},
        }
    }
}

/// The number of objects visited grows with the part of the list that is
/// taken.
pub proof fn lemma_tree_size_monotone(objs: Seq<Objects>, m: nat, n: nat)
    requires
        m <= n <= objs.len(),
    ensures
        tree_size(objs, m) <= tree_size(objs, n),
    decreases n,
{
    if m < n {
        lemma_tree_size_monotone(objs, m, (n - 1) as nat);
    }
}

/// Adds to `tally` the objects of `objects` and of the groups under them.
pub fn count_objects_recursive(objects: &Vec<Objects>, tally: &mut ObjectTally)
    requires
        old(tally).sum() + tree_size(objects@, objects@.len()) <= u32::MAX,
    ensures
        forall|k: ObjectKind|
            #[trigger] final(tally).count(k) == old(tally).count(k) + count_kind(
                objects@,
                objects@.len(),
                k,
            ),
        final(tally).sum() == old(tally).sum() + tree_size(objects@, objects@.len()),
    decreases objects,
{
    let n: usize = objects.len();
    let ghost start = *tally;
    let mut i: usize = 0;
    while i < n
        invariant
            i <= n,
            n == objects@.len(),
            start.sum() + tree_size(objects@, n as nat) <= u32::MAX,
            forall|k: ObjectKind|
                #[trigger] tally.count(k) == start.count(k) + count_kind(objects@, i as nat, k),
            tally.sum() == start.sum() + tree_size(objects@, i as nat),
        decreases n - i,
    {
        proof {
            lemma_tree_size_monotone(objects@, (i + 1) as nat, n as nat);
        }
        let ghost before = *tally;
        tally.record(objects[i].kind_of());
        let ghost counted = *tally;
        match &objects[i] {
            Objects::Group(children) => {
                count_objects_recursive(children, tally);
            },
            _ => {},
        }
        assert forall|k: ObjectKind|
            #[trigger] tally.count(k) == start.count(k) + count_kind(
                objects@,
                (i + 1) as nat,
                k,
            ) by {
            assert(before.count(k) == start.count(k) + count_kind(objects@, i as nat, k));
            assert(counted.count(k) == before.count(k) + (if k == objects@[i as int].kind() {
                1nat
            } else {
                0nat
            }));
        }
        i += 1;
    }
}

/// Counts the objects of a tree by kind, the groups and what they hold
/// included.
pub fn count_objects(objects: &Vec<Objects>) -> (tally: ObjectTally)
    requires
        tree_size(objects@, objects@.len()) <= u32::MAX,
    ensures
        forall|k: ObjectKind| #[trigger] tally.count(k) == count_kind(objects@, objects@.len(), k),
        tally.sum() == tree_size(objects@, objects@.len()),
{
    let mut tally = ObjectTally::new();
    count_objects_recursive(objects, &mut tally);
    tally
}

/// Adds to `tally` the objects of `objects` and of the groups under them, as
/// far as the counts can hold them. Where it returns `false` the sum would
/// pass the greatest count, and `tally` holds only a part.
pub fn count_objects_within(objects: &Vec<Objects>, tally: &mut ObjectTally) -> (fits: bool)
    ensures
        fits == (old(tally).sum() + tree_size(objects@, objects@.len()) <= u32::MAX),
        fits ==> forall|k: ObjectKind|
            #[trigger] final(tally).count(k) == old(tally).count(k) + count_kind(
                objects@,
                objects@.len(),
                k,
            ),
        fits ==> final(tally).sum() == old(tally).sum() + tree_size(objects@, objects@.len()),
    decreases objects,
{
    let n: usize = objects.len();
    let ghost start = *tally;
    if tally.total() > 0xffff_ffff {
        return false;
    }
    let mut i: usize = 0;
    while i < n
        invariant
            i <= n,
            n == objects@.len(),
            forall|k: ObjectKind|
                #[trigger] tally.count(k) == start.count(k) + count_kind(objects@, i as nat, k),
            tally.sum() == start.sum() + tree_size(objects@, i as nat),
            tally.sum() <= u32::MAX,
            start == *old(tally),
        decreases n - i,
    {
        proof {
            lemma_tree_size_monotone(objects@, (i + 1) as nat, n as nat);
            assert(tree_size(objects@, (i + 1) as nat) == tree_size(objects@, i as nat) + 1 + (
            match objects@[i as int] {
                Objects::Group(children) => tree_size(children@, children@.len()),
                _ => 0,
            }));
        }
        if tally.total() >= 0xffff_ffff {
            return false;
        }
        let ghost before = *tally;
        tally.record(objects[i].kind_of());
        let ghost counted = *tally;
        match &objects[i] {
            Objects::Group(children) => {
                if !count_objects_within(children, tally) {
                    return false;
                }
            },
            _ => {},
        }
        assert forall|k: ObjectKind|
            #[trigger] tally.count(k) == start.count(k) + count_kind(
                objects@,
                (i + 1) as nat,
                k,
            ) by {
            assert(before.count(k) == start.count(k) + count_kind(objects@, i as nat, k));
            assert(counted.count(k) == before.count(k) + (if k == objects@[i as int].kind() {
                1nat
            } else {
                0nat
            }));
        }
        i += 1;
    }
    true
}

/// Counts the objects of a tree by kind, the groups and what they hold
/// included. `None` where the tree holds more objects than a count can
/// hold.
pub fn try_count_objects(objects: &Vec<Objects>) -> (r: Option<ObjectTally>)
    ensures
        r is Some <==> tree_size(objects@, objects@.len()) <= u32::MAX,
        r is Some ==> forall|k: ObjectKind|
            #[trigger] r->0.count(k) == count_kind(objects@, objects@.len(), k),
        r is Some ==> r->0.sum() == tree_size(objects@, objects@.len()),
{
    let mut tally = ObjectTally::new();
    if count_objects_within(objects, &mut tally) {
        Some(tally)
    } else {
        None
    }
}

} // verus!
