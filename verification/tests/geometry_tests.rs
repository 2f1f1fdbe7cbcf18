use render_core::geometry::{
    generate_annulus, generate_regular_polygon, AnnulusVertex, PolygonVertexKind, Ring,
};

const TAU: f32 = std::f32::consts::PI * 2.0;

/// Realize an annulus vertex as the position the host would upload.
fn annulus_position(
    v: &AnnulusVertex,
    radius: f32,
    inner_radius: f32,
    start_angle: f32,
    end_angle: f32,
    subdivisions: u16,
) -> [f32; 2] {
    let angle =
        start_angle + (v.step as f32) * (end_angle - start_angle) / (subdivisions as f32);
    let r = match v.ring {
        Ring::Outer => radius,
        Ring::Inner => inner_radius,
    };
    [r * angle.cos(), r * angle.sin()]
}

/// Realize a polygon vertex as the position the host would upload.
fn polygon_position(v: &PolygonVertexKind, radius: f32, aspect: f32, sides: u16) -> [f32; 2] {
    match v {
        PolygonVertexKind::Center => [0.0, 0.0],
        PolygonVertexKind::Rim { step } => {
            let angle = (*step as f32) * TAU / (sides as f32);
            [radius * angle.cos() / aspect, radius * angle.sin()]
        }
    }
}

fn signed_area(p1: [f32; 2], p2: [f32; 2], p3: [f32; 2]) -> f32 {
    0.5 * ((p2[0] - p1[0]) * (p3[1] - p1[1]) - (p3[0] - p1[0]) * (p2[1] - p1[1]))
}

#[test]
fn annulus_counts_and_index_range() {
    for subdivisions in [1u16, 2, 3, 24, 100] {
        let mesh = generate_annulus(subdivisions).unwrap();
        let expected = 6 * subdivisions as usize;
        assert_eq!(mesh.vertices.len(), expected);
        assert_eq!(mesh.indices.len(), expected);
        for (j, &index) in mesh.indices.iter().enumerate() {
            assert_eq!(index as usize, j);
            assert!((index as usize) < mesh.vertices.len());
        }
    }
}

#[test]
fn annulus_zero_subdivisions_is_invalid() {
    assert!(generate_annulus(0).is_err());
}

#[test]
fn annulus_vertex_schedule() {
    let mesh = generate_annulus(2).unwrap();
    let expected = [
        (Ring::Outer, 0u16),
        (Ring::Outer, 1),
        (Ring::Inner, 0),
        (Ring::Inner, 0),
        (Ring::Outer, 1),
        (Ring::Inner, 1),
        (Ring::Outer, 1),
        (Ring::Outer, 2),
        (Ring::Inner, 1),
        (Ring::Inner, 1),
        (Ring::Outer, 2),
        (Ring::Inner, 2),
    ];
    for (v, (ring, step)) in mesh.vertices.iter().zip(expected.iter()) {
        assert_eq!(v.ring, *ring);
        assert_eq!(v.step, *step);
    }
}

#[test]
fn annulus_triangles_wind_counter_clockwise() {
    // Positive signed area for every emitted triangle when
    // radius > inner_radius >= 0.
    let subdivisions = 24u16;
    let mesh = generate_annulus(subdivisions).unwrap();
    let positions: Vec<[f32; 2]> = mesh
        .vertices
        .iter()
        .map(|v| annulus_position(v, 0.5, 0.3, 0.0, TAU, subdivisions))
        .collect();
    assert_eq!(mesh.indices.len() % 3, 0);
    for tri in mesh.indices.chunks(3) {
        let area = signed_area(
            positions[tri[0] as usize],
            positions[tri[1] as usize],
            positions[tri[2] as usize],
        );
        assert!(area > 0.0, "triangle {:?} has area {}", tri, area);
    }
}

#[test]
fn polygon_triangles_wind_counter_clockwise() {
    let sides = 6u16;
    let mesh = generate_regular_polygon(sides).unwrap();
    let positions: Vec<[f32; 2]> = mesh
        .vertices
        .iter()
        .map(|v| polygon_position(v, 1.0, 1.0, sides))
        .collect();
    for tri in mesh.indices.chunks(3) {
        let area = signed_area(
            positions[tri[0] as usize],
            positions[tri[1] as usize],
            positions[tri[2] as usize],
        );
        assert!(area > 0.0, "triangle {:?} has area {}", tri, area);
    }
}

#[test]
fn hexagon_counts_and_closing_vertex() {
    // sides=6, radius=1, aspect=1: 8 vertices (1 center + 7 rim) and
    // 18 indices; the first and last rim vertices coincide.
    let sides = 6u16;
    let mesh = generate_regular_polygon(sides).unwrap();
    assert_eq!(mesh.vertices.len(), 8);
    assert_eq!(mesh.indices.len(), 18);
    assert_eq!(mesh.vertices[0], PolygonVertexKind::Center);
    let first = polygon_position(&mesh.vertices[1], 1.0, 1.0, sides);
    let last = polygon_position(&mesh.vertices[7], 1.0, 1.0, sides);
    assert!((first[0] - last[0]).abs() < 1e-5);
    assert!((first[1] - last[1]).abs() < 1e-5);
    for (t, tri) in mesh.indices.chunks(3).enumerate() {
        assert_eq!(tri[0], 0);
        assert_eq!(tri[1] as usize, t + 1);
        assert_eq!(tri[2] as usize, t + 2);
    }
}

#[test]
fn polygon_too_few_sides_is_invalid() {
    assert!(generate_regular_polygon(0).is_err());
    assert!(generate_regular_polygon(1).is_err());
    assert!(generate_regular_polygon(2).is_err());
    assert!(generate_regular_polygon(3).is_ok());
}

#[test]
fn polygon_index_range() {
    for sides in [3u16, 4, 6, 12] {
        let mesh = generate_regular_polygon(sides).unwrap();
        assert_eq!(mesh.vertices.len(), sides as usize + 2);
        assert_eq!(mesh.indices.len(), 3 * sides as usize);
        for &index in mesh.indices.iter() {
            assert!((index as usize) < mesh.vertices.len());
        }
    }
}
