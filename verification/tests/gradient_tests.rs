use dnd_gradient::color::{ColorEntry, Rgba};
use dnd_gradient::gradient::{build_gradient_mesh, gradient_of_entries, Gradient, Rect};

fn black() -> Rgba {
    Rgba::opaque(0, 0, 0)
}

fn white() -> Rgba {
    Rgba::opaque(255, 255, 255)
}

fn rect_of_height(height: i32) -> Rect {
    Rect { left: 0, right: 50, top: 0, bottom: height }
}

#[test]
fn two_stops_over_height_100() {
    // Black above, white below: the top row sits at y = 0 and is black,
    // the bottom row at y = 100 and is white, and the one quad between
    // them is exactly two triangles.
    let gradient = Gradient(vec![black(), white()]);
    let mesh = build_gradient_mesh(rect_of_height(100), &gradient);
    assert_eq!(mesh.den, 1);
    assert_eq!(mesh.vertices.len(), 4);
    assert_eq!(mesh.triangles.len(), 2);
    assert_eq!(mesh.vertices[0].y_num, 0);
    assert_eq!(mesh.vertices[1].y_num, 0);
    assert_eq!(mesh.vertices[0].color, black());
    assert_eq!(mesh.vertices[1].color, black());
    assert_eq!(mesh.vertices[2].y_num, 100);
    assert_eq!(mesh.vertices[3].y_num, 100);
    assert_eq!(mesh.vertices[2].color, white());
    assert_eq!(mesh.vertices[3].color, white());
}

#[test]
fn counts_follow_the_number_of_stops() {
    for n in 2..8 {
        let stops: Vec<Rgba> = (0..n).map(|i| Rgba::opaque(i as u8, 0, 0)).collect();
        let mesh = build_gradient_mesh(rect_of_height(100), &Gradient(stops));
        assert_eq!(mesh.vertices.len(), 2 * n);
        assert_eq!(mesh.triangles.len(), 2 * (n - 1));
        assert_eq!(mesh.den as usize, n - 1);
    }
}

#[test]
fn edge_rows_carry_first_and_last_stops() {
    let red = Rgba::opaque(255, 0, 0);
    let green = Rgba::opaque(0, 255, 0);
    let blue = Rgba::opaque(0, 0, 255);
    let gradient = Gradient(vec![red, green, blue]);
    let mesh = build_gradient_mesh(rect_of_height(90), &gradient);
    let last = mesh.vertices.len() - 1;
    assert_eq!(mesh.vertices[0].color, red);
    assert_eq!(mesh.vertices[1].color, red);
    assert_eq!(mesh.vertices[last - 1].color, blue);
    assert_eq!(mesh.vertices[last].color, blue);
    assert_eq!(mesh.vertices[2].color, green);
    assert_eq!(mesh.vertices[3].color, green);
    // Edge rows sit exactly on the rectangle's edges: y = y_num / den.
    assert_eq!(mesh.vertices[0].y_num, 0);
    assert_eq!(mesh.vertices[last].y_num, 90 * mesh.den as i64);
}

#[test]
fn rows_are_evenly_spaced() {
    // Three stops over 0..100: den = 2, so rows sit at 0, 50 and 100.
    let stops = vec![black(), Rgba::opaque(9, 9, 9), white()];
    let mesh = build_gradient_mesh(rect_of_height(100), &Gradient(stops));
    assert_eq!(mesh.den, 2);
    let ys: Vec<i64> = mesh.vertices.iter().map(|v| v.y_num / mesh.den as i64).collect();
    assert_eq!(ys, vec![0, 0, 50, 50, 100, 100]);
}

#[test]
fn horizontal_extent_and_triangle_indices() {
    let rect = Rect { left: -7, right: 43, top: 10, bottom: 30 };
    let mesh = build_gradient_mesh(rect, &Gradient(vec![black(), white(), black()]));
    for i in 0..3 {
        assert_eq!(mesh.vertices[2 * i].x, -7);
        assert_eq!(mesh.vertices[2 * i + 1].x, 43);
    }
    let tris: Vec<(u32, u32, u32)> = mesh.triangles.iter().map(|t| (t.a, t.b, t.c)).collect();
    assert_eq!(tris, vec![(0, 1, 2), (1, 2, 3), (2, 3, 4), (3, 4, 5)]);
    for t in &mesh.triangles {
        assert!((t.a as usize) < mesh.vertices.len());
        assert!((t.b as usize) < mesh.vertices.len());
        assert!((t.c as usize) < mesh.vertices.len());
    }
}

#[test]
fn negative_vertical_range() {
    // A rectangle whose top coordinate is negative: rows at -40 and 60.
    let rect = Rect { left: 0, right: 10, top: -40, bottom: 60 };
    let mesh = build_gradient_mesh(rect, &Gradient(vec![white(), black()]));
    assert_eq!(mesh.vertices[0].y_num, -40);
    assert_eq!(mesh.vertices[2].y_num, 60);
}

#[test]
fn gradient_of_entries_takes_colors_in_order() {
    let entries = vec![
        ColorEntry::new("Panic Purple".to_string(), Rgba::opaque(0x64, 0x2c, 0xa9)),
        ColorEntry::new("Generic Green".to_string(), Rgba::opaque(0x2a, 0x9d, 0x8f)),
        ColorEntry::new("Ownership Orange".to_string(), Rgba::opaque(0xe9, 0xc4, 0x6a)),
    ];
    let gradient = gradient_of_entries(&entries);
    assert_eq!(gradient.0.len(), 3);
    assert_eq!(gradient.0[0], Rgba::opaque(0x64, 0x2c, 0xa9));
    assert_eq!(gradient.0[1], Rgba::opaque(0x2a, 0x9d, 0x8f));
    assert_eq!(gradient.0[2], Rgba::opaque(0xe9, 0xc4, 0x6a));
}
