use vstd::prelude::*;

use crate::mesh::{count_up, Mesh};

verus! {

/// What one frame hands to the painter: a screen point for every vertex and
/// a screen segment for every edge, mesh by mesh, each mesh in the order of
/// its own vertices and edges.
pub struct Frame<P> {
    pub points: Vec<P>,
    pub segments: Vec<(P, P)>,
}

/// The vertices of mesh `m`, each paired with `m`.
pub open spec fn mesh_points<V>(m: int, mesh: Mesh<V>) -> Seq<(usize, V)> {
    mesh.vertices@.map_values(|v: V| (m as usize, v))
}

/// The edges of mesh `m` as pairs of end vertices, each paired with `m`.
pub open spec fn mesh_segments<V>(m: int, mesh: Mesh<V>) -> Seq<(usize, V, V)> {
    mesh.lines@.map_values(|l: (usize, usize)| (m as usize, mesh.vertices@[l.0 as int], mesh.vertices@[l.1 as int]))
}

/// Where the points of a frame over `meshes` come from, in drawing order.
pub open spec fn point_sources<V>(meshes: Seq<Mesh<V>>) -> Seq<(usize, V)>
    decreases meshes.len(),
{
    if meshes.len() == 0 {
        Seq::empty()
    } else {
        point_sources(meshes.drop_last()) + mesh_points(meshes.len() - 1, meshes.last())
    }
}

/// Where the segments of a frame over `meshes` come from, in drawing order.
pub open spec fn segment_sources<V>(meshes: Seq<Mesh<V>>) -> Seq<(usize, V, V)>
    decreases meshes.len(),
{
    if meshes.len() == 0 {
        Seq::empty()
    } else {
        segment_sources(meshes.drop_last()) + mesh_segments(meshes.len() - 1, meshes.last())
    }
}

/// The number of vertices over all of `meshes`.
pub open spec fn vertex_count<V>(meshes: Seq<Mesh<V>>) -> nat
    decreases meshes.len(),
{
    if meshes.len() == 0 {
        0
    } else {
        vertex_count(meshes.drop_last()) + meshes.last().vertices@.len()
    }
}

/// The number of edges over all of `meshes`.
pub open spec fn line_count<V>(meshes: Seq<Mesh<V>>) -> nat
    decreases meshes.len(),
{
    if meshes.len() == 0 {
        0
    } else {
        line_count(meshes.drop_last()) + meshes.last().lines@.len()
    }
}

/// Every point of `frame` is what `project` gives for its source, and so
/// is each end of every segment.
pub open spec fn projects_all<V, P, F: Fn(usize, &V) -> P>(
    meshes: Seq<Mesh<V>>,
    project: F,
    frame: Frame<P>,
) -> bool {
    &&& frame.points@.len() == point_sources(meshes).len()
    &&& frame.segments@.len() == segment_sources(meshes).len()
    &&& forall|k: int|
        0 <= k < frame.points@.len() ==> project.ensures(
            (point_sources(meshes)[k].0, &point_sources(meshes)[k].1),
            #[trigger] frame.points@[k],
        )
    &&& forall|k: int|
        0 <= k < frame.segments@.len() ==> {
            let s = segment_sources(meshes)[k];
            &&& project.ensures((s.0, &s.1), (#[trigger] frame.segments@[k]).0)
            &&& project.ensures((s.0, &s.2), frame.segments@[k].1)
        }
}

/// Appends the projection of mesh `m` to `frame`.
fn project_mesh<V, P, F: Fn(usize, &V) -> P>(m: usize, mesh: &Mesh<V>, project: &F, frame: &mut Frame<P>)
    requires
        mesh.wf(),
        forall|i: usize, v: &V| project.requires((i, v)),
    ensures
        final(frame).points@.len() == old(frame).points@.len() + mesh.vertices@.len(),
        final(frame).segments@.len() == old(frame).segments@.len() + mesh.lines@.len(),
        forall|k: int|
            0 <= k < old(frame).points@.len() ==> #[trigger] final(frame).points@[k] == old(frame).points@[k],
        forall|k: int|
            0 <= k < old(frame).segments@.len() ==> #[trigger] final(frame).segments@[k] == old(frame).segments@[k],
        forall|k: int|
            0 <= k < mesh.vertices@.len() ==> project.ensures(
                (m, &mesh.vertices@[k]),
                #[trigger] final(frame).points@[old(frame).points@.len() + k],
            ),
        forall|k: int|
            0 <= k < mesh.lines@.len() ==> {
                let l = mesh.lines@[k];
                &&& project.ensures(
                    (m, &mesh.vertices@[l.0 as int]),
                    (#[trigger] final(frame).segments@[old(frame).segments@.len() + k]).0,
                )
                &&& project.ensures(
                    (m, &mesh.vertices@[l.1 as int]),
                    final(frame).segments@[old(frame).segments@.len() + k].1,
                )
            },
{
    let ghost p0 = frame.points@.len();
    let ghost s0 = frame.segments@.len();
    let mut i: usize = 0;
    while i < mesh.vertices.len()
        invariant
            i <= mesh.vertices@.len(),
            forall|i: usize, v: &V| project.requires((i, v)),
            frame.points@.len() == p0 + i,
            frame.segments@.len() == s0,
            forall|k: int| 0 <= k < p0 ==> #[trigger] frame.points@[k] == old(frame).points@[k],
            forall|k: int| 0 <= k < s0 ==> #[trigger] frame.segments@[k] == old(frame).segments@[k],
            forall|k: int|
                0 <= k < i ==> project.ensures((m, &mesh.vertices@[k]), #[trigger] frame.points@[p0 + k]),
        decreases mesh.vertices.len() - i,
    {
        let p = project(m, &mesh.vertices[i]);
        frame.points.push(p);
        i = i + 1;
    }
    let mut j: usize = 0;
    while j < mesh.lines.len()
        invariant
            j <= mesh.lines@.len(),
            mesh.wf(),
            forall|i: usize, v: &V| project.requires((i, v)),
            frame.points@.len() == p0 + mesh.vertices@.len(),
            frame.segments@.len() == s0 + j,
            forall|k: int| 0 <= k < p0 ==> #[trigger] frame.points@[k] == old(frame).points@[k],
            forall|k: int| 0 <= k < s0 ==> #[trigger] frame.segments@[k] == old(frame).segments@[k],
            forall|k: int|
                0 <= k < mesh.vertices@.len() ==> project.ensures(
                    (m, &mesh.vertices@[k]),
                    #[trigger] frame.points@[p0 + k],
                ),
            forall|k: int|
                0 <= k < j ==> {
                    let l = mesh.lines@[k];
                    &&& project.ensures((m, &mesh.vertices@[l.0 as int]), (#[trigger] frame.segments@[s0 + k]).0)
                    &&& project.ensures((m, &mesh.vertices@[l.1 as int]), frame.segments@[s0 + k].1)
                },
        decreases mesh.lines.len() - j,
    {
        let (a, b) = mesh.lines[j];
        assert(mesh.lines@[j as int].0 < mesh.vertices@.len());
        let pa = project(m, &mesh.vertices[a]);
        let pb = project(m, &mesh.vertices[b]);
        frame.segments.push((pa, pb));
        j = j + 1;
    }
}

/// Projects every mesh of `meshes` for one frame, in order: the points of
/// each mesh's vertices, and the two ends of each of its edges. `project`
/// receives the index of the mesh with each vertex, so that it can apply that
/// mesh's own transform.
pub fn render_frame<V, P, F: Fn(usize, &V) -> P>(meshes: &Vec<Mesh<V>>, project: &F) -> (r: Frame<P>)
    requires
        forall|i: int| 0 <= i < meshes@.len() ==> (#[trigger] meshes@[i]).wf(),
        forall|i: usize, v: &V| project.requires((i, v)),
    ensures
        projects_all(meshes@, *project, r),
{
    let mut frame = Frame { points: Vec::new(), segments: Vec::new() };
    let mut m: usize = 0;
    while m < meshes.len()
        invariant
            m <= meshes@.len(),
            forall|i: int| 0 <= i < meshes@.len() ==> (#[trigger] meshes@[i]).wf(),
            forall|i: usize, v: &V| project.requires((i, v)),
            projects_all(meshes@.take(m as int), *project, frame),
        decreases meshes.len() - m,
    {
        let ghost before = frame;
        let ghost done = meshes@.take(m as int);
        let ghost next = meshes@.take(m + 1);
        assert(next.drop_last() =~= done);
        assert(next.last() == meshes@[m as int]);
        project_mesh(m, &meshes[m], project, &mut frame);
        assert(point_sources(next) == point_sources(done) + mesh_points(m as int, meshes@[m as int]));
        assert(segment_sources(next) == segment_sources(done) + mesh_segments(m as int, meshes@[m as int]));
        assert forall|k: int| 0 <= k < frame.points@.len() implies project.ensures(
            (point_sources(next)[k].0, &point_sources(next)[k].1),
            #[trigger] frame.points@[k],
        ) by {
            let n = before.points@.len() as int;
            if k >= n {
                let mesh = meshes@[m as int];
                assert(point_sources(next)[k] == (m, mesh.vertices@[k - n]));
                assert(project.ensures((m, &mesh.vertices@[k - n]), frame.points@[n + (k - n)]));
            } else {
                assert(frame.points@[k] == before.points@[k]);
                assert(point_sources(next)[k] == point_sources(done)[k]);
            }
        }
        assert forall|k: int| 0 <= k < frame.segments@.len() implies {
            let s = segment_sources(next)[k];
            &&& project.ensures((s.0, &s.1), (#[trigger] frame.segments@[k]).0)
            &&& project.ensures((s.0, &s.2), frame.segments@[k].1)
        } by {
            let n = before.segments@.len() as int;
            if k >= n {
                let mesh = meshes@[m as int];
                let l = mesh.lines@[k - n];
                assert(segment_sources(next)[k] == (m, mesh.vertices@[l.0 as int], mesh.vertices@[l.1 as int]));
                assert(project.ensures((m, &mesh.vertices@[l.0 as int]), frame.segments@[n + (k - n)].0));
            } else {
                assert(frame.segments@[k] == before.segments@[k]);
                assert(segment_sources(next)[k] == segment_sources(done)[k]);
            }
        }
        m = m + 1;
    }
    assert(meshes@.take(m as int) =~= meshes@);
    frame
}

proof fn lemma_source_counts<V>(meshes: Seq<Mesh<V>>)
    ensures
        point_sources(meshes).len() == vertex_count(meshes),
        segment_sources(meshes).len() == line_count(meshes),
    decreases meshes.len(),
{
    if meshes.len() > 0 {
        lemma_source_counts(meshes.drop_last());
    }
}

/// A frame holds exactly one point for each vertex and one segment for each
/// edge of all its meshes.
pub proof fn lemma_frame_size<V, P, F: Fn(usize, &V) -> P>(meshes: Seq<Mesh<V>>, project: F, frame: Frame<P>)
    requires
        projects_all(meshes, project, frame),
    ensures
        frame.points@.len() == vertex_count(meshes),
        frame.segments@.len() == line_count(meshes),
{
    lemma_source_counts(meshes);
}

/// Advances every mesh by one turn step, leaving everything else as it was.
pub fn tic<V>(meshes: &mut Vec<Mesh<V>>)
    ensures
        final(meshes)@.len() == old(meshes)@.len(),
        forall|i: int|
            0 <= i < old(meshes)@.len() ==> {
                let (a, b) = (old(meshes)@[i], #[trigger] final(meshes)@[i]);
                &&& b.ticks == count_up(a.ticks)
                &&& b.origin == a.origin
                &&& b.vertices@ == a.vertices@
                &&& b.lines@ == a.lines@
            },
{
    let mut i: usize = 0;
    while i < meshes.len()
        invariant
            i <= meshes@.len(),
            meshes@.len() == old(meshes)@.len(),
            forall|k: int|
                0 <= k < meshes@.len() ==> {
                    let (a, b) = (old(meshes)@[k], #[trigger] meshes@[k]);
                    &&& b.ticks == if k < i { count_up(a.ticks) } else { a.ticks }
                    &&& b.origin == a.origin
                    &&& b.vertices@ == a.vertices@
                    &&& b.lines@ == a.lines@
                },
        decreases meshes.len() - i,
    {
        meshes[i].tick();
        i = i + 1;
    }
}

/// The scene of a running animation: one camera and the meshes it looks at.
pub struct SimulationState<C, V> {
    pub camera: C,
    pub meshes: Vec<Mesh<V>>,
}

impl<C, V> SimulationState<C, V> {
    /// A scene of one mesh.
    pub fn new(camera: C, poly: Mesh<V>) -> (r: Self)
        ensures
            r.camera == camera,
            r.meshes@ == seq![poly],
    {
        let mut meshes: Vec<Mesh<V>> = Vec::new();
        meshes.push(poly);
        SimulationState { camera, meshes }
    }
}

} // verus!
