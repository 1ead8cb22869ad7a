use wireframe::instance::{Action, FrameDriver};
use wireframe::mesh::{lines_fit, Line, Mesh};
use wireframe::render::{render_frame, tic, SimulationState};
use wireframe::shapes::{Surd, Vertex};

fn whole(x: i8, y: i8, z: i8) -> Vertex {
    Vertex {
        x: Surd { whole: x, root2: 0 },
        y: Surd { whole: y, root2: 0 },
        z: Surd { whole: z, root2: 0 },
    }
}

fn as_ints(v: &Vertex) -> (i32, i32, i32) {
    (v.x.whole as i32, v.y.whole as i32, v.z.whole as i32)
}

#[test]
fn lines_fit_accepts_edges_within_the_vertices() {
    let lines: Vec<Line> = vec![(0, 1), (1, 2), (2, 0)];
    assert!(lines_fit(&lines, 3));
    assert!(lines_fit(&Vec::new(), 0));
}

#[test]
fn lines_fit_rejects_an_edge_past_the_last_vertex() {
    assert!(!lines_fit(&vec![(0, 1), (1, 3)], 3));
    assert!(!lines_fit(&vec![(3, 0)], 3));
    assert!(!lines_fit(&vec![(0, 0)], 0));
}

#[test]
fn new_mesh_has_not_turned() {
    let m = Mesh::new(7u32, vec![1u32, 2, 3], vec![(0, 2)]);
    assert_eq!(m.origin, 7);
    assert_eq!(m.ticks, 0);
    assert_eq!(m.vertices, vec![1, 2, 3]);
    assert_eq!(m.lines, vec![(0, 2)]);
}

#[test]
fn tick_counts_steps_and_stops_at_the_largest_count() {
    let mut m = Mesh::new(0u8, vec![0u8], vec![]);
    m.tick();
    m.tick();
    assert_eq!(m.ticks, 2);
    m.ticks = u64::MAX;
    m.tick();
    assert_eq!(m.ticks, u64::MAX);
}

#[test]
fn rotation_accumulates_one_step_per_tick() {
    let mut meshes = vec![Mesh::mk_cube(), Mesh::mk_cube_dbg()];
    for _ in 0..1000 {
        tic(&mut meshes);
    }
    assert_eq!(meshes[0].ticks, 1000);
    assert_eq!(meshes[1].ticks, 1000);
    assert_eq!(meshes[0].vertices.len(), 8);
    assert_eq!(meshes[1].lines, vec![(0, 1), (1, 0)]);
}

#[test]
fn map_vertices_converts_every_vertex_and_keeps_edges() {
    let mut cube = Mesh::mk_cube();
    cube.tick();
    let m = cube.map_vertices(&|v: &Vertex| as_ints(v));
    assert_eq!(m.origin, (0, 0, 0));
    assert_eq!(m.ticks, 1);
    assert_eq!(m.vertices[0], (-1, 1, 1));
    assert_eq!(m.vertices[7], (1, -1, -1));
    assert_eq!(m.lines, cube.lines);
}

#[test]
fn cube_has_eight_corners_and_twenty_four_listed_edges() {
    let cube = Mesh::mk_cube();
    assert_eq!(cube.vertices.len(), 8);
    assert_eq!(cube.lines.len(), 24);
    assert!(cube.origin == whole(0, 0, 0));
    assert!(cube.vertices[3] == whole(-1, -1, -1));
    assert!(lines_fit(&cube.lines, 8));
    for &(a, b) in cube.lines.iter() {
        let (p, q) = (as_ints(&cube.vertices[a]), as_ints(&cube.vertices[b]));
        let differ = (p.0 != q.0) as u32 + (p.1 != q.1) as u32 + (p.2 != q.2) as u32;
        assert_eq!(differ, 1);
        assert!(cube.lines.contains(&(b, a)));
    }
}

#[test]
fn tetra_cube_holds_exact_root_two_coordinates() {
    let m = Mesh::mk_tetra_cube();
    assert_eq!(m.vertices.len(), 13);
    assert_eq!(m.lines.len(), 16);
    assert!(m.vertices[4].y == Surd { whole: 1, root2: 1 });
    assert!(m.vertices[9].z == Surd { whole: -1, root2: 1 });
    assert!(m.vertices[12] == whole(0, 0, 2));
    assert_eq!(m.lines[11], (3, 10));
    assert!(lines_fit(&m.lines, 13));
    let y4 = m.vertices[4].y.whole as f64 + m.vertices[4].y.root2 as f64 * 2.0_f64.sqrt();
    assert!((y4 - 2.414_213_562).abs() < 1e-9);
}

#[test]
fn cube_dbg_is_one_edge_from_both_ends() {
    let m = Mesh::mk_cube_dbg();
    assert!(m.vertices == vec![whole(-1, 1, 1), whole(-1, -1, 1)]);
    assert_eq!(m.lines, vec![(0, 1), (1, 0)]);
}

#[test]
fn frame_of_the_cube_has_one_point_per_vertex_and_one_segment_per_edge() {
    let meshes = vec![Mesh::mk_cube()];
    let frame = render_frame(&meshes, &|m: usize, v: &Vertex| (m, as_ints(v)));
    assert_eq!(frame.points.len(), 8);
    assert_eq!(frame.segments.len(), 24);
    for (i, p) in frame.points.iter().enumerate() {
        assert_eq!(*p, (0, as_ints(&meshes[0].vertices[i])));
    }
    assert_eq!(frame.segments[0], ((0, (-1, 1, 1)), (0, (1, 1, 1))));
    assert_eq!(frame.segments[23], ((0, (1, -1, -1)), (0, (1, -1, 1))));
}

#[test]
fn frame_keeps_mesh_order_and_passes_each_mesh_its_index() {
    let a = Mesh::new(0i32, vec![10, 20], vec![(1, 0)]);
    let b = Mesh::new(0i32, vec![30, 40, 50], vec![(0, 2), (2, 1)]);
    let frame = render_frame(&vec![a, b], &|m: usize, v: &i32| (m as i32) * 1000 + *v);
    assert_eq!(frame.points, vec![10, 20, 1030, 1040, 1050]);
    assert_eq!(frame.segments, vec![(20, 10), (1030, 1050), (1050, 1040)]);
}

#[test]
fn frame_of_no_meshes_is_empty() {
    let meshes: Vec<Mesh<i32>> = Vec::new();
    let frame = render_frame(&meshes, &|_m: usize, v: &i32| *v);
    assert!(frame.points.is_empty());
    assert!(frame.segments.is_empty());
}

#[test]
fn simulation_state_holds_one_mesh() {
    let s = SimulationState::new("camera", Mesh::mk_cube());
    assert_eq!(s.camera, "camera");
    assert_eq!(s.meshes.len(), 1);
    assert_eq!(s.meshes[0].lines.len(), 24);
}

#[test]
fn driver_runs_a_frame_per_refresh_until_stopped() {
    let mut d = FrameDriver::new();
    assert_eq!(d.frames, 0);
    assert!(d.frame_due() == Action::Idle);
    assert!(d.start() == Action::Schedule);
    assert!(d.start() == Action::Idle);
    assert!(d.frame_due() == Action::Draw { again: true });
    assert!(d.frame_due() == Action::Draw { again: true });
    assert_eq!(d.frames, 2);
    d.request_stop();
    assert!(d.frame_due() == Action::Draw { again: false });
    assert_eq!(d.frames, 3);
    assert!(!d.running);
    assert!(d.frame_due() == Action::Idle);
    assert_eq!(d.frames, 3);
}

#[test]
fn stop_before_start_is_forgotten() {
    let mut d = FrameDriver::new();
    d.request_stop();
    assert!(!d.stopping);
    assert!(d.start() == Action::Schedule);
    assert!(d.frame_due() == Action::Draw { again: true });
}
