//! Genome model and genetic operators.
//!
//! A genome is a pair of fixed-length gene sequences: `body_nodes` holds one
//! binary flag per structural node, `body_masteries` holds six bytes per
//! mastery slot. Buffers live in an allocator pool (`Vec<Box<DnaData>>`) and
//! are checked out, zeroed and reused rather than freshly allocated.

use rand::Rng;
use vstd::prelude::*;

verus! {

/// Fitness of a genome. A fresh or re-initialized genome is `Unscored`;
/// a worker moves it to `Scored` with the bit pattern of the score it was
/// handed by the scoring policy.
#[derive(Clone, Copy, Debug, PartialEq, Eq, Structural)]
pub enum Fitness {
    Unscored,
    Scored(u64),
}

/// The two gene sequences and the fitness mark of one candidate.
pub struct DnaData {
    pub body_nodes: Vec<u8>,
    pub body_masteries: Vec<u8>,
    pub fitness_score: Fitness,
}

/// An owning handle over one checked-out gene buffer.
pub struct Dna {
    pub reference: Box<DnaData>,
}

/// Identity key over a genome's gene bytes, usable for generation-level
/// deduplication of identical candidates.
#[derive(Hash)]
pub struct DnaKey<'a>(pub &'a [u8], pub &'a [u8]);

/// A gene byte flipped between its two binary states: a set flag is cleared,
/// anything else becomes a set flag.
pub open spec fn flip_byte(b: u8) -> u8 {
    if b == 1 {
        0u8
    } else {
        1u8
    }
}

/// `s` with every position in `[start, start + count)` flipped and every
/// other position unchanged.
pub open spec fn flipped_cluster(s: Seq<u8>, start: int, count: int) -> Seq<u8> {
    Seq::new(
        s.len(),
        |i: int|
            if start <= i < start + count {
                flip_byte(s[i])
            } else {
                s[i]
            },
    )
}

/// `base` with the inclusive range `[lo, hi]` overwritten by `overlay`'s
/// bytes at the same positions.
pub open spec fn spliced(base: Seq<u8>, overlay: Seq<u8>, lo: int, hi: int) -> Seq<u8> {
    Seq::new(
        base.len(),
        |i: int|
            if lo <= i <= hi {
                overlay[i]
            } else {
                base[i]
            },
    )
}

/// Every byte of the sequence is zero.
pub open spec fn all_zero(s: Seq<u8>) -> bool {
    forall|i: int| 0 <= i < s.len() ==> s[i] == 0
}

/// Every buffer of the pool carries the configured shape: `node_count` node
/// genes and `mastery_count * 6` mastery genes.
pub open spec fn pool_shaped(pool: Seq<Box<DnaData>>, node_count: int, mastery_count: int) -> bool {
    forall|i: int|
        0 <= i < pool.len() ==> (#[trigger] pool[i]).body_nodes@.len() == node_count
            && pool[i].body_masteries@.len() == mastery_count * 6
}

/// Every genome issued from a well-shaped pool carries the configured
/// gene-sequence lengths: the buffer a checkout or clone pops from the
/// pool's top holds `node_count` node genes and `mastery_count * 6` mastery
/// genes, and the remaining pool stays well shaped.
pub proof fn lemma_issued_genome_shape(
    pool: Seq<Box<DnaData>>,
    node_count: int,
    mastery_count: int,
)
    requires
        pool_shaped(pool, node_count, mastery_count),
        pool.len() > 0,
    ensures
        pool.last().body_nodes@.len() == node_count,
        pool.last().body_masteries@.len() == mastery_count * 6,
        pool_shaped(pool.drop_last(), node_count, mastery_count),
{
    assert(pool.last() == pool[pool.len() - 1]);
    assert forall|i: int| 0 <= i < pool.drop_last().len() implies (#[trigger] pool.drop_last()[
        i
    ]).body_nodes@.len() == node_count && pool.drop_last()[i].body_masteries@.len()
        == mastery_count * 6 by {
        assert(pool.drop_last()[i] == pool[i]);
    }
}

/// A flipped cluster changes exactly the contiguous positions
/// `[start, start + count)`: a position differs from its prior value if and
/// only if it lies in the cluster, every changed byte is the binary
/// complement of its prior value, and only the bytes 0 and 1 ever appear at
/// changed positions.
pub proof fn lemma_mutation_diff(pre: Seq<u8>, start: int, count: int)
    requires
        0 <= start,
        count >= 1,
        start + count <= pre.len(),
    ensures
        flipped_cluster(pre, start, count).len() == pre.len(),
        forall|i: int|
            0 <= i < pre.len() ==> (flipped_cluster(pre, start, count)[i] != pre[i] <==> start <= i
                < start + count),
        forall|i: int|
            start <= i < start + count ==> flipped_cluster(pre, start, count)[i] == flip_byte(
                pre[i],
            ),
        forall|i: int|
            start <= i < start + count ==> (flipped_cluster(pre, start, count)[i] == 0
                || flipped_cluster(pre, start, count)[i] == 1),
{
}

/// Crossover copies genes position by position: outside the chosen node and
/// mastery ranges the child's genes equal the base parent's exactly, inside
/// them they equal the overlay parent's exactly, and the child keeps the
/// base parent's fitness mark.
pub proof fn lemma_crossover_genes(
    base: Dna,
    overlay: Dna,
    child: Dna,
    nlo: int,
    nhi: int,
    mlo: int,
    mhi: int,
)
    requires
        cross_of(base, overlay, child, nlo, nhi, mlo, mhi),
        overlay.reference.body_nodes@.len() == base.reference.body_nodes@.len(),
        overlay.reference.body_masteries@.len() == base.reference.body_masteries@.len(),
        0 <= nlo <= nhi < base.reference.body_nodes@.len(),
        0 <= mlo <= mhi < base.reference.body_masteries@.len(),
    ensures
        child.reference.body_nodes@.len() == base.reference.body_nodes@.len(),
        child.reference.body_masteries@.len() == base.reference.body_masteries@.len(),
        forall|i: int|
            0 <= i < base.reference.body_nodes@.len() && !(nlo <= i <= nhi)
                ==> child.reference.body_nodes@[i] == base.reference.body_nodes@[i],
        forall|i: int|
            nlo <= i <= nhi ==> child.reference.body_nodes@[i]
                == overlay.reference.body_nodes@[i],
        forall|i: int|
            0 <= i < base.reference.body_masteries@.len() && !(mlo <= i <= mhi)
                ==> child.reference.body_masteries@[i] == base.reference.body_masteries@[i],
        forall|i: int|
            mlo <= i <= mhi ==> child.reference.body_masteries@[i]
                == overlay.reference.body_masteries@[i],
        child.reference.fitness_score == base.reference.fitness_score,
{
}

impl DnaData {
    /// A fresh all-zero buffer of the configured shape, not yet scored.
    pub fn new(tree_nodes_count: usize, mastery_count: usize) -> (d: DnaData)
        requires
            mastery_count * 6 <= usize::MAX,
        ensures
            d.body_nodes@.len() == tree_nodes_count,
            d.body_masteries@.len() == mastery_count * 6,
            all_zero(d.body_nodes@),
            all_zero(d.body_masteries@),
            d.fitness_score == Fitness::Unscored,
    {
        DnaData {
            body_nodes: zero_vec(tree_nodes_count),
            body_masteries: zero_vec(mastery_count * 6),
            fitness_score: Fitness::Unscored,
        }
    }

    /// Resets the buffer for reuse: both gene sequences are zeroed in place
    /// (their lengths never change) and the fitness mark returns to
    /// `Unscored`.
    pub fn init(&mut self)
        ensures
            final(self).body_nodes@.len() == old(self).body_nodes@.len(),
            final(self).body_masteries@.len() == old(self).body_masteries@.len(),
            all_zero(final(self).body_nodes@),
            all_zero(final(self).body_masteries@),
            final(self).fitness_score == Fitness::Unscored,
    {
        zero_fill(&mut self.body_nodes);
        zero_fill(&mut self.body_masteries);
        self.fitness_score = Fitness::Unscored;
    }
}

/// A vector of `n` zero bytes.
fn zero_vec(n: usize) -> (v: Vec<u8>)
    ensures
        v@.len() == n,
        all_zero(v@),
{
    let mut v: Vec<u8> = Vec::new();
    let mut i: usize = 0;
    while i < n
        invariant
            i <= n,
            v@.len() == i,
            all_zero(v@),
        decreases n - i,
    {
        v.push(0);
        i = i + 1;
    }
    v
}

impl Dna {
    /// Checks one buffer out of the pool: the buffer is removed from the
    /// pool's top, zeroed and handed over unscored. Capacity planning is the
    /// caller's responsibility: the pool must not be empty.
    pub fn new(dna_data_allocator: &mut Vec<Box<DnaData>>) -> (dna: Dna)
        requires
            old(dna_data_allocator)@.len() > 0,
        ensures
            final(dna_data_allocator)@ == old(dna_data_allocator)@.drop_last(),
            dna.reference.body_nodes@.len() == old(dna_data_allocator)@.last().body_nodes@.len(),
            dna.reference.body_masteries@.len() == old(
                dna_data_allocator,
            )@.last().body_masteries@.len(),
            all_zero(dna.reference.body_nodes@),
            all_zero(dna.reference.body_masteries@),
            dna.reference.fitness_score == Fitness::Unscored,
    {
        let mut dna_data = dna_data_allocator.pop().unwrap();

        dna_data.init();

        Dna { reference: dna_data }
    }

    /// Checks one buffer out of the pool and copies this genome's gene bytes
    /// and fitness mark into it verbatim. The buffer at the pool's top must
    /// carry the same shape as this genome.
    pub fn clone(&self, dna_data_allocator: &mut Vec<Box<DnaData>>) -> (dna: Dna)
        requires
            old(dna_data_allocator)@.len() > 0,
            old(dna_data_allocator)@.last().body_nodes@.len()
                == self.reference.body_nodes@.len(),
            old(dna_data_allocator)@.last().body_masteries@.len()
                == self.reference.body_masteries@.len(),
        ensures
            final(dna_data_allocator)@ == old(dna_data_allocator)@.drop_last(),
            dna.reference.body_nodes@ == self.reference.body_nodes@,
            dna.reference.body_masteries@ == self.reference.body_masteries@,
            dna.reference.fitness_score == self.reference.fitness_score,
    {
        let mut dna_data = dna_data_allocator.pop().unwrap();

        copy_bytes(&mut dna_data.body_nodes, &self.reference.body_nodes);
        copy_bytes(&mut dna_data.body_masteries, &self.reference.body_masteries);
        dna_data.fitness_score = self.reference.fitness_score;

        Dna { reference: dna_data }
    }
}

/// Randomness source for the genetic operators, the thread-local generator
/// of the `rand` crate.
#[verifier::external_type_specification]
#[verifier::external_body]
pub struct ExThreadRng(rand::rngs::ThreadRng);

/// Relies on `rand::Rng::gen_range` over a half-open `usize` range: the
/// sample lies in `[lo, hi)`. The call panics only on an empty range, which
/// the precondition rules out.
#[verifier::external_body]
fn gen_range_usize(rng: &mut rand::rngs::ThreadRng, lo: usize, hi: usize) -> (r: usize)
    requires
        lo < hi,
    ensures
        lo <= r < hi,
{
    rng.gen_range(lo..hi)
}

impl Dna {
    /// Flips the node genes in `[node_start, node_start + cluster_size)` and
    /// the single mastery gene at `mastery_pos`; nothing else changes.
    pub fn mutate_at(&mut self, cluster_size: usize, node_start: usize, mastery_pos: usize)
        requires
            cluster_size >= 1,
            node_start + cluster_size <= old(self).reference.body_nodes@.len(),
            mastery_pos < old(self).reference.body_masteries@.len(),
        ensures
            final(self).reference.body_nodes@ == flipped_cluster(
                old(self).reference.body_nodes@,
                node_start as int,
                cluster_size as int,
            ),
            final(self).reference.body_masteries@ == flipped_cluster(
                old(self).reference.body_masteries@,
                mastery_pos as int,
                1,
            ),
            final(self).reference.fitness_score == old(self).reference.fitness_score,
    {
        flip_range(&mut self.reference.body_nodes, node_start, cluster_size);
        flip_range(&mut self.reference.body_masteries, mastery_pos, 1);
    }

    /// Two independent local perturbations: a contiguous node cluster of a
    /// size drawn from `[1, 4]`, starting at an offset drawn from
    /// `[0, nodeCount - clusterSize)`, is flipped, and one mastery gene at an
    /// offset drawn from `[0, masteryGeneCount)` is flipped. The genome must
    /// hold more than four node genes and at least one mastery gene.
    pub fn mutate(&mut self, rng: &mut rand::rngs::ThreadRng)
        requires
            old(self).reference.body_nodes@.len() > 4,
            old(self).reference.body_masteries@.len() >= 1,
        ensures
            exists|start: int, count: int|
                1 <= count <= 4
                && 0 <= start
                && start + count < old(self).reference.body_nodes@.len()
                && final(self).reference.body_nodes@
                    == flipped_cluster(old(self).reference.body_nodes@, start, count),
            exists|pos: int|
                0 <= pos < old(self).reference.body_masteries@.len()
                && final(self).reference.body_masteries@
                    == flipped_cluster(old(self).reference.body_masteries@, pos, 1),
            final(self).reference.fitness_score == old(self).reference.fitness_score,
    {
        // Mutate nodes
        let mutate_cluster_size = gen_range_usize(rng, 1, 5);
        let start_num = gen_range_usize(rng, 0, self.reference.body_nodes.len()
            - mutate_cluster_size);

        flip_range(&mut self.reference.body_nodes, start_num, mutate_cluster_size);

        // Mutate masteries
        let mastery_num = gen_range_usize(rng, 0, self.reference.body_masteries.len());

        flip_range(&mut self.reference.body_masteries, mastery_num, 1);
    }
}

/// `child` is the single-range crossover of `base` and `overlay`: outside
/// the inclusive node range `[nlo, nhi]` and mastery range `[mlo, mhi]` its
/// genes are the base parent's, inside they are the overlay parent's, and
/// its fitness mark is whatever the clone of the base parent carried.
pub open spec fn cross_of(
    base: Dna,
    overlay: Dna,
    child: Dna,
    nlo: int,
    nhi: int,
    mlo: int,
    mhi: int,
) -> bool {
    &&& child.reference.body_nodes@ == spliced(
        base.reference.body_nodes@,
        overlay.reference.body_nodes@,
        nlo,
        nhi,
    )
    &&& child.reference.body_masteries@ == spliced(
        base.reference.body_masteries@,
        overlay.reference.body_masteries@,
        mlo,
        mhi,
    )
    &&& child.reference.fitness_score == base.reference.fitness_score
}

impl Dna {
    /// Clones `dna1` in full, then copies `dna2`'s bytes over the inclusive
    /// node range `[node_lo, node_hi]` and mastery range
    /// `[mastery_lo, mastery_hi]` of the clone.
    pub fn crossover_dna(
        dna_data_allocator: &mut Vec<Box<DnaData>>,
        dna1: &Dna,
        dna2: &Dna,
        node_lo: usize,
        node_hi: usize,
        mastery_lo: usize,
        mastery_hi: usize,
    ) -> (child: Dna)
        requires
            old(dna_data_allocator)@.len() > 0,
            old(dna_data_allocator)@.last().body_nodes@.len()
                == dna1.reference.body_nodes@.len(),
            old(dna_data_allocator)@.last().body_masteries@.len()
                == dna1.reference.body_masteries@.len(),
            dna2.reference.body_nodes@.len() == dna1.reference.body_nodes@.len(),
            dna2.reference.body_masteries@.len() == dna1.reference.body_masteries@.len(),
            node_lo <= node_hi < dna1.reference.body_nodes@.len(),
            mastery_lo <= mastery_hi < dna1.reference.body_masteries@.len(),
        ensures
            final(dna_data_allocator)@ == old(dna_data_allocator)@.drop_last(),
            cross_of(
                *dna1,
                *dna2,
                child,
                node_lo as int,
                node_hi as int,
                mastery_lo as int,
                mastery_hi as int,
            ),
    {
        let mut new_dna = dna1.clone(dna_data_allocator);

        splice_range(
            &mut new_dna.reference.body_nodes,
            &dna2.reference.body_nodes,
            node_lo,
            node_hi,
        );
        splice_range(
            &mut new_dna.reference.body_masteries,
            &dna2.reference.body_masteries,
            mastery_lo,
            mastery_hi,
        );

        new_dna
    }

    /// Single contiguous-range crossover producing one child genome. Two
    /// node offsets `a` and `b` are drawn from `[0, nodeCount)` and an
    /// ordered mastery pair from `[0, masteryGeneCount)`; the parent
    /// supplying the lower node endpoint (`self` when `a < b`, `other`
    /// otherwise) is cloned in full as the base, and the opposite parent's
    /// genes are copied over `[min(a,b), max(a,b)]` and the mastery range.
    /// The child keeps the fitness mark the clone copied from the base
    /// parent.
    pub fn combine(
        &self,
        dna_data_allocator: &mut Vec<Box<DnaData>>,
        dna2: &Dna,
        rng: &mut rand::rngs::ThreadRng,
    ) -> (child: Dna)
        requires
            old(dna_data_allocator)@.len() > 0,
            old(dna_data_allocator)@.last().body_nodes@.len()
                == self.reference.body_nodes@.len(),
            old(dna_data_allocator)@.last().body_masteries@.len()
                == self.reference.body_masteries@.len(),
            dna2.reference.body_nodes@.len() == self.reference.body_nodes@.len(),
            dna2.reference.body_masteries@.len() == self.reference.body_masteries@.len(),
            self.reference.body_nodes@.len() >= 1,
            self.reference.body_masteries@.len() >= 1,
        ensures
            final(dna_data_allocator)@ == old(dna_data_allocator)@.drop_last(),
            exists|nlo: int, nhi: int, mlo: int, mhi: int|
                0 <= nlo <= nhi < self.reference.body_nodes@.len()
                && 0 <= mlo <= mhi < self.reference.body_masteries@.len()
                && (cross_of(*self, *dna2, child, nlo, nhi, mlo, mhi)
                    || cross_of(*dna2, *self, child, nlo, nhi, mlo, mhi)),
    {
        let nodes_len: usize = self.reference.body_nodes.len();
        let masteries_len: usize = self.reference.body_masteries.len();

        let crossover_body_start = gen_range_usize(rng, 0, nodes_len);
        let crossover_body_end = gen_range_usize(rng, 0, nodes_len);

        let crossover_masteries_start = gen_range_usize(rng, 0, masteries_len);
        let crossover_masteries_end = gen_range_usize(rng, crossover_masteries_start, masteries_len);

        if crossover_body_start < crossover_body_end {
            Dna::crossover_dna(
                dna_data_allocator,
                self,
                dna2,
                crossover_body_start,
                crossover_body_end,
                crossover_masteries_start,
                crossover_masteries_end,
            )
        } else {
            Dna::crossover_dna(
                dna_data_allocator,
                dna2,
                self,
                crossover_body_end,
                crossover_body_start,
                crossover_masteries_start,
                crossover_masteries_end,
            )
        }
    }
}

/// Overwrites `dst`'s bytes in the inclusive range `[lo, hi]` with `src`'s
/// bytes at the same positions, leaving the rest unchanged.
fn splice_range(dst: &mut Vec<u8>, src: &Vec<u8>, lo: usize, hi: usize)
    requires
        old(dst)@.len() == src@.len(),
        lo <= hi < old(dst)@.len(),
    ensures
        final(dst)@ == spliced(old(dst)@, src@, lo as int, hi as int),
{
    let mut i: usize = lo;
    while i <= hi
        invariant
            lo <= i <= hi + 1,
            hi < dst.len(),
            dst@.len() == old(dst)@.len(),
            src@.len() == old(dst)@.len(),
            forall|j: int| 0 <= j < lo ==> dst@[j] == old(dst)@[j],
            forall|j: int| lo <= j < i ==> dst@[j] == src@[j],
            forall|j: int| i <= j < dst@.len() ==> dst@[j] == old(dst)@[j],
        decreases hi + 1 - i,
    {
        dst[i] = src[i];
        i = i + 1;
    }
    proof {
        assert(dst@ =~= spliced(old(dst)@, src@, lo as int, hi as int));
    }
}

/// Flips each byte of `v` in `[start, start + count)` between its two binary
/// states, leaving the rest unchanged.
fn flip_range(v: &mut Vec<u8>, start: usize, count: usize)
    requires
        start + count <= old(v).len(),
    ensures
        final(v)@ == flipped_cluster(old(v)@, start as int, count as int),
{
    let end: usize = start + count;
    let mut i: usize = start;
    while i < end
        invariant
            start <= i <= end,
            end <= v@.len(),
            v@.len() == old(v)@.len(),
            forall|j: int| 0 <= j < start ==> v@[j] == old(v)@[j],
            forall|j: int| start <= j < i ==> v@[j] == flip_byte(old(v)@[j]),
            forall|j: int| i <= j < v@.len() ==> v@[j] == old(v)@[j],
        decreases end - i,
    {
        if v[i] == 1 {
            v[i] = 0;
        } else {
            v[i] = 1;
        }
        i = i + 1;
    }
    proof {
        assert(v@ =~= flipped_cluster(old(v)@, start as int, count as int));
    }
}

/// Overwrites `dst` with `src`'s bytes; the two must have the same length.
fn copy_bytes(dst: &mut Vec<u8>, src: &Vec<u8>)
    requires
        old(dst)@.len() == src@.len(),
    ensures
        final(dst)@ == src@,
{
    let n: usize = src.len();
    let mut i: usize = 0;
    while i < n
        invariant
            i <= n,
            dst@.len() == n,
            src@.len() == n,
            forall|j: int| 0 <= j < i ==> dst@[j] == src@[j],
        decreases n - i,
    {
        dst[i] = src[i];
        i = i + 1;
    }
    proof {
        assert(dst@ =~= src@);
    }
}

/// Overwrites every byte of `v` with zero, keeping its length.
fn zero_fill(v: &mut Vec<u8>)
    ensures
        final(v)@.len() == old(v)@.len(),
        all_zero(final(v)@),
{
    let n: usize = v.len();
    let mut i: usize = 0;
    while i < n
        invariant
            i <= n,
            v@.len() == n,
            forall|j: int| 0 <= j < i ==> v@[j] == 0,
        decreases n - i,
    {
        v[i] = 0;
        i = i + 1;
    }
}

} // verus!
