//! The tally of the source entities of a drawing, and the record of one
//! conversion.

use vstd::prelude::*;
use vstd::string::*;

verus! {

/// The kind of one source entity, as the tally tells them apart. `Insert` is
/// a block insert; `Other` is every kind that is not converted.
#[derive(Debug, Clone, Copy, PartialEq, Eq, Structural)]
pub enum EntityKind {
    Circle,
    Line,
    Arc,
    Spline,
    Text,
    Ellipse,
    Polyline,
    LwPolyline,
    Solid,
    Insert,
    Other,
}

/// The counts of the source entities by kind, and the time that the
/// conversion took.
#[derive(Debug, Clone)]
pub struct ConversionStats {
    pub circles: u32,
    pub lines: u32,
    pub arcs: u32,
    pub splines: u32,
    pub texts: u32,
    pub ellipses: u32,
    pub polylines: u32,
    pub lwpolylines: u32,
    pub solids: u32,
    pub blocks: u32,
    pub unsupported: u32,
    pub elapsed_ms: u128,
}

/// What one conversion hands back.
#[derive(Debug, Clone)]
pub struct ConversionResult {
    pub success: bool,
    pub message: String,
    pub stats: Option<ConversionStats>,
    pub xml_content: Option<String>,
}

/// The message of a conversion that went through.
pub open spec fn success_message(name: Seq<char>) -> Seq<char> {
    "Successfully converted "@ + name
}

impl ConversionResult {
    /// The result of a conversion that went through, for the drawing of
    /// that name.
    pub fn converted(name: &str, stats: ConversionStats, xml_content: Option<String>) -> (r: Self)
        ensures
            r.success,
            r.message@ == success_message(name@),
            r.stats == Some(stats),
            r.xml_content == xml_content,
    {
        let mut message = String::from_str("Successfully converted ");
        message.append(name);
        ConversionResult { success: true, message, stats: Some(stats), xml_content }
    }
}

/// The number of entities of kind `k` among the first `n` of `kinds`.
pub open spec fn count_of(kinds: Seq<EntityKind>, n: nat, k: EntityKind) -> nat
    decreases n,
{
    if n == 0 || n > kinds.len() {
        0
    } else if kinds[n - 1] == k {
        count_of(kinds, (n - 1) as nat, k) + 1
    } else {
        count_of(kinds, (n - 1) as nat, k)
    }
}

impl ConversionStats {
    /// The count that the record holds for kind `k`.
    pub open spec fn count(&self, k: EntityKind) -> nat {
        match k {
            EntityKind::Circle => self.circles as nat,
            EntityKind::Line => self.lines as nat,
            EntityKind::Arc => self.arcs as nat,
            EntityKind::Spline => self.splines as nat,
            EntityKind::Text => self.texts as nat,
            EntityKind::Ellipse => self.ellipses as nat,
            EntityKind::Polyline => self.polylines as nat,
            EntityKind::LwPolyline => self.lwpolylines as nat,
            EntityKind::Solid => self.solids as nat,
            EntityKind::Insert => self.blocks as nat,
            EntityKind::Other => self.unsupported as nat,
        }
    }

    /// The sum of all counts.
    pub open spec fn sum(&self) -> nat {
        (self.circles + self.lines + self.arcs + self.splines + self.texts + self.ellipses
            + self.polylines + self.lwpolylines + self.solids + self.blocks
            + self.unsupported) as nat
    }

    /// The record of no entity, with the time given.
    pub fn new(elapsed_ms: u128) -> (stats: Self)
        ensures
            forall|k: EntityKind| stats.count(k) == 0,
            stats.sum() == 0,
            stats.elapsed_ms == elapsed_ms,
    {
        ConversionStats {
            circles: 0,
            lines: 0,
            arcs: 0,
            splines: 0,
            texts: 0,
            ellipses: 0,
            polylines: 0,
            lwpolylines: 0,
            solids: 0,
            blocks: 0,
            unsupported: 0,
            elapsed_ms,
        }
    }

    /// Counts one entity more of kind `kind`.
    pub fn record(&mut self, kind: EntityKind)
        requires
            old(self).sum() < u32::MAX,
        ensures
            forall|k: EntityKind| #[trigger]
                final(self).count(k) == old(self).count(k) + (if k == kind {
                    1nat
                } else {
                    0nat
                }),
            final(self).sum() == old(self).sum() + 1,
            final(self).elapsed_ms == old(self).elapsed_ms,
    {
        match kind {
            EntityKind::Circle => {
                self.circles += 1;
            },
            EntityKind::Line => {
                self.lines += 1;
            },
            EntityKind::Arc => {
                self.arcs += 1;
            },
            EntityKind::Spline => {
                self.splines += 1;
            },
            EntityKind::Text => {
                self.texts += 1;
            },
            EntityKind::Ellipse => {
                self.ellipses += 1;
            },
            EntityKind::Polyline => {
                self.polylines += 1;
            },
            EntityKind::LwPolyline => {
                self.lwpolylines += 1;
            },
            EntityKind::Solid => {
                self.solids += 1;
            },
            EntityKind::Insert => {
                self.blocks += 1;
            },
            EntityKind::Other => {
                self.unsupported += 1;
            },
        }
    }

    /// The sum of all counts.
    pub fn total(&self) -> (t: u64)
        ensures
            t == self.sum(),
    {
        let shapes: u64 = self.circles as u64 + self.lines as u64 + self.arcs as u64
            + self.splines as u64 + self.texts as u64 + self.ellipses as u64;
        shapes + self.polylines as u64 + self.lwpolylines as u64 + self.solids as u64
            + self.blocks as u64 + self.unsupported as u64
    }

    /// Whether any entity was met that is not converted.
    pub fn has_unsupported(&self) -> (b: bool)
        ensures
            b == (self.count(EntityKind::Other) > 0),
    {
        self.unsupported > 0
    }
}

/// The sum, over all kinds, of the entities of each kind.
pub open spec fn sum_of_counts(kinds: Seq<EntityKind>, n: nat) -> nat {
    count_of(kinds, n, EntityKind::Circle) + count_of(kinds, n, EntityKind::Line) + count_of(
        kinds,
        n,
        EntityKind::Arc,
    ) + count_of(kinds, n, EntityKind::Spline) + count_of(kinds, n, EntityKind::Text) + count_of(
        kinds,
        n,
        EntityKind::Ellipse,
    ) + count_of(kinds, n, EntityKind::Polyline) + count_of(kinds, n, EntityKind::LwPolyline)
        + count_of(kinds, n, EntityKind::Solid) + count_of(kinds, n, EntityKind::Insert)
        + count_of(kinds, n, EntityKind::Other)
}

/// The counts by kind add up to the number of entities visited: every
/// entity is counted under exactly one kind.
pub proof fn lemma_source_counts_conserved(kinds: Seq<EntityKind>, n: nat)
    requires
        n <= kinds.len(),
    ensures
        sum_of_counts(kinds, n) == n,
    decreases n,
{
    if n > 0 {
        lemma_source_counts_conserved(kinds, (n - 1) as nat);
    }
}

/// Counts the entities of a drawing by kind, in one pass over them.
pub fn tally_entities(kinds: &Vec<EntityKind>, elapsed_ms: u128) -> (stats: ConversionStats)
    requires
        kinds@.len() <= u32::MAX,
    ensures
        forall|k: EntityKind| #[trigger] stats.count(k) == count_of(kinds@, kinds@.len(), k),
        stats.sum() == kinds@.len(),
        stats.elapsed_ms == elapsed_ms,
{
    let n: usize = kinds.len();
    let mut stats = ConversionStats::new(elapsed_ms);
    let mut i: usize = 0;
    while i < n
        invariant
            i <= n,
            n == kinds@.len(),
            n <= u32::MAX,
            stats.elapsed_ms == elapsed_ms,
            forall|k: EntityKind| #[trigger] stats.count(k) == count_of(kinds@, i as nat, k),
            stats.sum() == i,
        decreases n - i,
    {
        stats.record(kinds[i]);
        i += 1;
    }
    stats
}

/// Counts the entities of a drawing by kind. `None` where the drawing holds
/// more entities than a count can hold.
pub fn try_tally_entities(kinds: &Vec<EntityKind>, elapsed_ms: u128) -> (r: Option<
    ConversionStats,
>)
    ensures
        r is Some <==> kinds@.len() <= u32::MAX,
        r is Some ==> forall|k: EntityKind|
            #[trigger] r->0.count(k) == count_of(kinds@, kinds@.len(), k),
        r is Some ==> r->0.sum() == kinds@.len(),
        r is Some ==> r->0.elapsed_ms == elapsed_ms,
{
    if kinds.len() <= 0xffff_ffff {
        Some(tally_entities(kinds, elapsed_ms))
    } else {
        None
    }
}

} // verus!
