use vstd::prelude::*;

verus! {

/// An edge of a mesh: the indices of its two end vertices.
pub type Line = (usize, usize);

/// Every edge of `lines` names two vertices among the first `n`.
pub open spec fn lines_within(lines: Seq<Line>, n: nat) -> bool {
    forall|i: int| 0 <= i < lines.len() ==> (#[trigger] lines[i]).0 < n && lines[i].1 < n
}

/// Tells whether every edge of `lines` names two of `n_vertices` vertices.
pub fn lines_fit(lines: &Vec<Line>, n_vertices: usize) -> (r: bool)
    ensures
        r == lines_within(lines@, n_vertices as nat),
{
    let mut i: usize = 0;
    while i < lines.len()
        invariant
            i <= lines.len(),
            lines_within(lines@.take(i as int), n_vertices as nat),
        decreases lines.len() - i,
    {
        let (a, b) = lines[i];
        if a >= n_vertices || b >= n_vertices {
            assert(!lines_within(lines@, n_vertices as nat)) by {
                assert(lines@[i as int] == (a, b));
            }
            return false;
        }
        assert(lines@.take(i + 1) =~= lines@.take(i as int).push((a, b)));
        i = i + 1;
    }
    assert(lines@.take(i as int) =~= lines@);
    true
}

fn copy_lines(lines: &Vec<Line>) -> (r: Vec<Line>)
    ensures
        r@ == lines@,
{
    let mut r: Vec<Line> = Vec::new();
    let mut i: usize = 0;
    while i < lines.len()
        invariant
            i <= lines@.len(),
            r@ == lines@.take(i as int),
        decreases lines.len() - i,
    {
        r.push(lines[i]);
        i = i + 1;
        assert(r@ =~= lines@.take(i as int));
    }
    assert(lines@.take(i as int) =~= lines@);
    r
}

/// A counter after one more step; it stops at its largest value rather
/// than wrapping.
pub open spec fn count_up(t: u64) -> u64 {
    if t < u64::MAX {
        (t + 1) as u64
    } else {
        t
    }
}

/// The turn count after `n` more steps.
pub open spec fn ticks_after(t: u64, n: nat) -> u64
    decreases n,
{
    if n == 0 {
        t
    } else {
        count_up(ticks_after(t, (n - 1) as nat))
    }
}

/// Turning is exact: `n` steps from a count of `t` give `t + n`, as long as
/// that sum stays within the counter's range.
pub proof fn lemma_ticks_accumulate(t: u64, n: nat)
    requires
        t + n <= u64::MAX,
    ensures
        ticks_after(t, n) == t + n,
    decreases n,
{
    if n > 0 {
        lemma_ticks_accumulate(t, (n - 1) as nat);
    }
}

/// A wireframe mesh over vertices of type `V`.
///
/// `origin` places the mesh in the world, `vertices` are in the mesh's own
/// space and `lines` joins pairs of them. The mesh turns by a fixed step on
/// each frame tick; `ticks` counts those steps exactly, so the orientation
/// after any number of frames is the initial one plus `ticks` steps, with no
/// drift from repeated rounding and no wrap-around.
pub struct Mesh<V> {
    pub origin: V,
    pub ticks: u64,
    pub vertices: Vec<V>,
    pub lines: Vec<Line>,
}

impl<V> Mesh<V> {
    /// Every edge names two of the mesh's vertices.
    pub open spec fn wf(&self) -> bool {
        lines_within(self.lines@, self.vertices@.len())
    }

    /// Builds a mesh that has not turned yet.
    pub fn new(origin: V, vertices: Vec<V>, lines: Vec<Line>) -> (r: Self)
        requires
            lines_within(lines@, vertices@.len()),
        ensures
            r.wf(),
            r.origin == origin,
            r.ticks == 0,
            r.vertices@ == vertices@,
            r.lines@ == lines@,
    {
        Mesh { origin, ticks: 0, vertices, lines }
    }

    /// Advances the mesh's turn by one step. The count stops at its largest
    /// value rather than wrapping.
    pub fn tick(&mut self)
        ensures
            final(self).ticks == count_up(old(self).ticks),
            final(self).origin == old(self).origin,
            final(self).vertices@ == old(self).vertices@,
            final(self).lines@ == old(self).lines@,
    {
        if self.ticks < u64::MAX {
            self.ticks = self.ticks + 1;
        }
    }

    /// The same mesh with `f` applied to its origin and to each vertex, in
    /// order; edges and turn count are kept.
    pub fn map_vertices<W, F: Fn(&V) -> W>(&self, f: &F) -> (r: Mesh<W>)
        requires
            forall|v: &V| f.requires((v,)),
        ensures
            f.ensures((&self.origin,), r.origin),
            r.ticks == self.ticks,
            r.lines@ == self.lines@,
            r.vertices@.len() == self.vertices@.len(),
            forall|i: int|
                0 <= i < self.vertices@.len() ==> f.ensures((&self.vertices@[i],), #[trigger] r.vertices@[i]),
            self.wf() ==> r.wf(),
    {
        let origin = f(&self.origin);
        let mut vertices: Vec<W> = Vec::new();
        let mut i: usize = 0;
        while i < self.vertices.len()
            invariant
                i <= self.vertices@.len(),
                vertices@.len() == i,
                forall|v: &V| f.requires((v,)),
                forall|j: int| 0 <= j < i ==> f.ensures((&self.vertices@[j],), #[trigger] vertices@[j]),
            decreases self.vertices.len() - i,
        {
            let w = f(&self.vertices[i]);
            vertices.push(w);
            i = i + 1;
        }
        let lines = copy_lines(&self.lines);
        Mesh { origin, ticks: self.ticks, vertices, lines }
    }
}

} // verus!
