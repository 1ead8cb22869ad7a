use vstd::prelude::*;

use crate::mesh::{lines_within, Line, Mesh};

verus! {

/// A number of the form `whole + root2 * √2`, held exactly.
#[derive(Clone, Copy, Debug, PartialEq, Eq, Structural)]
pub struct Surd {
    pub whole: i8,
    pub root2: i8,
}

/// A point in space whose coordinates are held exactly.
#[derive(Clone, Copy, Debug, PartialEq, Eq, Structural)]
pub struct Vertex {
    pub x: Surd,
    pub y: Surd,
    pub z: Surd,
}

/// The number `whole + root2 * √2`.
pub open spec fn surd(whole: int, root2: int) -> Surd {
    Surd { whole: whole as i8, root2: root2 as i8 }
}

/// The point `(x, y, z)`.
pub open spec fn vertex(x: Surd, y: Surd, z: Surd) -> Vertex {
    Vertex { x, y, z }
}

/// The point with whole-number coordinates `(x, y, z)`.
pub open spec fn whole_vertex(x: int, y: int, z: int) -> Vertex {
    vertex(surd(x, 0), surd(y, 0), surd(z, 0))
}

fn mk_surd(whole: i8, root2: i8) -> (r: Surd)
    ensures
        r == surd(whole as int, root2 as int),
{
    Surd { whole, root2 }
}

fn mk_whole(x: i8, y: i8, z: i8) -> (r: Vertex)
    ensures
        r == whole_vertex(x as int, y as int, z as int),
{
    Vertex { x: mk_surd(x, 0), y: mk_surd(y, 0), z: mk_surd(z, 0) }
}

/// The eight corners of the cube of side 2 centred on the origin.
pub open spec fn cube_vertices() -> Seq<Vertex> {
    seq![
        whole_vertex(-1, 1, 1),
        whole_vertex(1, 1, 1),
        whole_vertex(-1, -1, 1),
        whole_vertex(-1, -1, -1),
        whole_vertex(-1, 1, -1),
        whole_vertex(1, 1, -1),
        whole_vertex(1, -1, 1),
        whole_vertex(1, -1, -1),
    ]
}

/// The cube's edges, each listed once from either end.
pub open spec fn cube_lines() -> Seq<Line> {
    seq![
        (0, 1), (0, 2), (0, 4),
        (1, 0), (1, 5), (1, 6),
        (2, 0), (2, 3), (2, 6),
        (3, 2), (3, 4), (3, 7),
        (4, 0), (4, 3), (4, 5),
        (5, 1), (5, 4), (5, 7),
        (6, 1), (6, 2), (6, 7),
        (7, 3), (7, 5), (7, 6),
    ]
}

/// The vertices of a solid made of a cube and tetrahedra around it; some
/// of its coordinates are `±1 ± √2`.
pub open spec fn tetra_cube_vertices() -> Seq<Vertex> {
    seq![
        whole_vertex(-1, 1, 1),
        whole_vertex(1, 1, 1),
        whole_vertex(1, -1, 1),
        whole_vertex(-1, -1, 1),
        vertex(surd(0, 0), surd(1, 1), surd(0, 0)),
        vertex(surd(0, 0), surd(-1, -1), surd(0, 0)),
        vertex(surd(1, 1), surd(0, 0), surd(0, 0)),
        vertex(surd(-1, -1), surd(0, 0), surd(0, 0)),
        vertex(surd(0, 0), surd(1, 0), surd(-1, -1)),
        vertex(surd(0, 0), surd(-1, 0), surd(-1, 1)),
        vertex(surd(1, 0), surd(0, 0), surd(-1, -1)),
        vertex(surd(-1, 0), surd(0, 0), surd(-1, 1)),
        whole_vertex(0, 0, 2),
    ]
}

/// The edges of that solid: a square face, four separate edges, the edges
/// that join the face to the rest, and an inner square.
pub open spec fn tetra_cube_lines() -> Seq<Line> {
    seq![
        (0, 1), (1, 2), (2, 3), (3, 0),
        (4, 5), (6, 7), (8, 9), (10, 11),
        (0, 4), (1, 6), (2, 8), (3, 10),
        (4, 6), (6, 8), (8, 10), (10, 4),
    ]
}

/// Two corners of one side of the cube, joined from both ends.
pub open spec fn cube_dbg_vertices() -> Seq<Vertex> {
    seq![whole_vertex(-1, 1, 1), whole_vertex(-1, -1, 1)]
}

/// Its one edge, from both ends.
pub open spec fn cube_dbg_lines() -> Seq<Line> {
    seq![(0, 1), (1, 0)]
}

/// `a` and `b` are whole-number points that differ in exactly one
/// coordinate.
pub open spec fn one_step_apart(a: Vertex, b: Vertex) -> bool {
    &&& a.x.root2 == 0 && a.y.root2 == 0 && a.z.root2 == 0
    &&& b.x.root2 == 0 && b.y.root2 == 0 && b.z.root2 == 0
    &&& (if a.x.whole == b.x.whole { 0int } else { 1int }) + (if a.y.whole == b.y.whole { 0int } else { 1int })
        + (if a.z.whole == b.z.whole { 0int } else { 1int }) == 1
}

fn mk_vertex(xw: i8, xr: i8, yw: i8, yr: i8, zw: i8, zr: i8) -> (r: Vertex)
    ensures
        r == vertex(surd(xw as int, xr as int), surd(yw as int, yr as int), surd(zw as int, zr as int)),
{
    Vertex { x: mk_surd(xw, xr), y: mk_surd(yw, yr), z: mk_surd(zw, zr) }
}

fn push_lines(r: &mut Vec<Line>, from: usize, to: [usize; 3])
    ensures
        final(r)@ == old(r)@ + seq![(from, to[0]), (from, to[1]), (from, to[2])],
{
    r.push((from, to[0]));
    r.push((from, to[1]));
    r.push((from, to[2]));
}

impl Mesh<Vertex> {
    /// The cube of side 2 centred on the origin, with every edge listed from
    /// both of its ends.
    pub fn mk_cube() -> (r: Self)
        ensures
            r.wf(),
            r.origin == whole_vertex(0, 0, 0),
            r.ticks == 0,
            r.vertices@ == cube_vertices(),
            r.lines@ == cube_lines(),
            forall|i: int|
                0 <= i < r.lines@.len() ==> one_step_apart(
                    r.vertices@[(#[trigger] r.lines@[i]).0 as int],
                    r.vertices@[r.lines@[i].1 as int],
                ),
    {
        let mut vertices: Vec<Vertex> = Vec::new();
        vertices.push(mk_whole(-1, 1, 1));
        vertices.push(mk_whole(1, 1, 1));
        vertices.push(mk_whole(-1, -1, 1));
        vertices.push(mk_whole(-1, -1, -1));
        vertices.push(mk_whole(-1, 1, -1));
        vertices.push(mk_whole(1, 1, -1));
        vertices.push(mk_whole(1, -1, 1));
        vertices.push(mk_whole(1, -1, -1));
        let mut lines: Vec<Line> = Vec::new();
        push_lines(&mut lines, 0, [1, 2, 4]);
        push_lines(&mut lines, 1, [0, 5, 6]);
        push_lines(&mut lines, 2, [0, 3, 6]);
        push_lines(&mut lines, 3, [2, 4, 7]);
        push_lines(&mut lines, 4, [0, 3, 5]);
        push_lines(&mut lines, 5, [1, 4, 7]);
        push_lines(&mut lines, 6, [1, 2, 7]);
        push_lines(&mut lines, 7, [3, 5, 6]);
        assert(vertices@ =~= cube_vertices());
        assert(lines@ =~= cube_lines());
        Mesh::new(mk_whole(0, 0, 0), vertices, lines)
    }

    /// The cube with tetrahedra around it.
    pub fn mk_tetra_cube() -> (r: Self)
        ensures
            r.wf(),
            r.origin == whole_vertex(0, 0, 0),
            r.ticks == 0,
            r.vertices@ == tetra_cube_vertices(),
            r.lines@ == tetra_cube_lines(),
    {
        let mut vertices: Vec<Vertex> = Vec::new();
        vertices.push(mk_whole(-1, 1, 1));
        vertices.push(mk_whole(1, 1, 1));
        vertices.push(mk_whole(1, -1, 1));
        vertices.push(mk_whole(-1, -1, 1));
        vertices.push(mk_vertex(0, 0, 1, 1, 0, 0));
        vertices.push(mk_vertex(0, 0, -1, -1, 0, 0));
        vertices.push(mk_vertex(1, 1, 0, 0, 0, 0));
        vertices.push(mk_vertex(-1, -1, 0, 0, 0, 0));
        vertices.push(mk_vertex(0, 0, 1, 0, -1, -1));
        vertices.push(mk_vertex(0, 0, -1, 0, -1, 1));
        vertices.push(mk_vertex(1, 0, 0, 0, -1, -1));
        vertices.push(mk_vertex(-1, 0, 0, 0, -1, 1));
        vertices.push(mk_whole(0, 0, 2));
        let mut lines: Vec<Line> = Vec::new();
        lines.push((0, 1));
        lines.push((1, 2));
        lines.push((2, 3));
        lines.push((3, 0));
        lines.push((4, 5));
        lines.push((6, 7));
        lines.push((8, 9));
        lines.push((10, 11));
        lines.push((0, 4));
        lines.push((1, 6));
        lines.push((2, 8));
        lines.push((3, 10));
        lines.push((4, 6));
        lines.push((6, 8));
        lines.push((8, 10));
        lines.push((10, 4));
        assert(vertices@ =~= tetra_cube_vertices());
        assert(lines@ =~= tetra_cube_lines());
        Mesh::new(mk_whole(0, 0, 0), vertices, lines)
    }

    /// A single side of the cube, for checking the pipeline by eye.
    pub fn mk_cube_dbg() -> (r: Self)
        ensures
            r.wf(),
            r.origin == whole_vertex(0, 0, 0),
            r.ticks == 0,
            r.vertices@ == cube_dbg_vertices(),
            r.lines@ == cube_dbg_lines(),
    {
        let mut vertices: Vec<Vertex> = Vec::new();
        vertices.push(mk_whole(-1, 1, 1));
        vertices.push(mk_whole(-1, -1, 1));
        let mut lines: Vec<Line> = Vec::new();
        lines.push((0, 1));
        lines.push((1, 0));
        assert(vertices@ =~= cube_dbg_vertices());
        assert(lines@ =~= cube_dbg_lines());
        Mesh::new(mk_whole(0, 0, 0), vertices, lines)
    }
}

} // verus!
