use vstd::prelude::*;
use crate::color::Rgba;

verus! {

/// The most stops a gradient handed to `build_gradient_mesh` may have.
/// The bound keeps every vertical numerator inside `i64` and every vertex
/// index inside `u32`.
pub const MAX_STOPS: usize = 0x4000_0000;

/// An axis-aligned rectangle with integer pixel coordinates.
#[derive(Clone, Copy, PartialEq, Eq, Structural, Debug)]
pub struct Rect {
    pub left: i32,
    pub right: i32,
    pub top: i32,
    pub bottom: i32,
}

/// A vertical gradient: ordered color stops, shaded top to bottom.
/// Order is significant; a gradient needs at least two stops to be drawn.
#[derive(Debug, PartialEq, Eq)]
pub struct Gradient(pub Vec<Rgba>);

/// One mesh vertex. Its vertical position is the exact rational
/// `y_num / den`, where `den` is the shared denominator of the mesh the
/// vertex belongs to; the horizontal position is the integer `x`.
#[derive(Clone, Copy, PartialEq, Eq, Structural, Debug)]
pub struct Vertex {
    pub x: i32,
    pub y_num: i64,
    pub color: Rgba,
}

/// A triangle, as three indices into a mesh's vertex list.
#[derive(Clone, Copy, PartialEq, Eq, Structural, Debug)]
pub struct Triangle {
    pub a: u32,
    pub b: u32,
    pub c: u32,
}

/// A triangle mesh with per-vertex colors. Every vertex sits at vertical
/// position `y_num / den`; keeping the denominator shared makes each
/// position exact without any rounding.
#[derive(Debug, PartialEq, Eq)]
pub struct Mesh {
    pub vertices: Vec<Vertex>,
    pub triangles: Vec<Triangle>,
    pub den: u32,
}

impl Mesh {
    /// Well-formed: the denominator is positive and every triangle points
    /// at existing vertices.
    pub open spec fn wf(self) -> bool {
        &&& self.den >= 1
        &&& forall|k: int|
            0 <= k < self.triangles.len() ==> {
                &&& (#[trigger] self.triangles@[k]).a < self.vertices.len()
                &&& self.triangles@[k].b < self.vertices.len()
                &&& self.triangles@[k].c < self.vertices.len()
            }
    }
}

/// The numerator of the vertical position of stop `i` among `n` stops laid
/// across `top..bottom`: the exact value of
/// `(top + (bottom - top) * i / (n - 1)) * (n - 1)`.
pub open spec fn y_numerator(top: int, bottom: int, i: int, n: int) -> int {
    top * (n - 1) + (bottom - top) * i
}

/// Build the mesh that fills `rect` with a vertical gradient through the
/// stops of `gradient`: one row of two vertices per stop, both carrying
/// that stop's color, and two triangles joining each pair of neighbouring
/// rows into a quad. The first row sits on the rectangle's top edge, the
/// last on its bottom edge, and the rows in between are spaced evenly:
/// row `i` sits at the exact height `y_numerator(..) / den`.
#[verifier::loop_isolation(false)]
pub fn build_gradient_mesh(rect: Rect, gradient: &Gradient) -> (mesh: Mesh)
    requires
        2 <= gradient.0.len(),
        gradient.0.len() <= MAX_STOPS,
    ensures
        mesh.wf(),
        mesh.den == gradient.0.len() - 1,
        mesh.vertices.len() == 2 * gradient.0.len(),
        mesh.triangles.len() == 2 * (gradient.0.len() - 1),
        forall|i: int|
            0 <= i < gradient.0.len() ==> {
                &&& (#[trigger] mesh.vertices@[2 * i]).x == rect.left
                &&& mesh.vertices@[2 * i + 1].x == rect.right
                &&& mesh.vertices@[2 * i].y_num == y_numerator(
                    rect.top as int,
                    rect.bottom as int,
                    i,
                    gradient.0.len() as int,
                )
                &&& mesh.vertices@[2 * i + 1].y_num == mesh.vertices@[2 * i].y_num
                &&& mesh.vertices@[2 * i].color == gradient.0[i]
                &&& mesh.vertices@[2 * i + 1].color == gradient.0[i]
            },
        forall|j: int|
            0 <= j < gradient.0.len() - 1 ==> {
                &&& (#[trigger] mesh.triangles@[2 * j]) == (Triangle {
                    a: (2 * j) as u32,
                    b: (2 * j + 1) as u32,
                    c: (2 * j + 2) as u32,
                })
                &&& mesh.triangles@[2 * j + 1] == (Triangle {
                    a: (2 * j + 1) as u32,
                    b: (2 * j + 2) as u32,
                    c: (2 * j + 3) as u32,
                })
            },
        // The top row carries exactly the first stop's color and sits on the
        // top edge; the bottom row carries the last stop's color and sits on
        // the bottom edge.
        mesh.vertices@[0].color == gradient.0[0],
        mesh.vertices@[1].color == gradient.0[0],
        mesh.vertices@[0].y_num == rect.top * mesh.den,
        mesh.vertices@[2 * gradient.0.len() - 2].color == gradient.0[gradient.0.len() - 1],
        mesh.vertices@[2 * gradient.0.len() - 1].color == gradient.0[gradient.0.len() - 1],
        mesh.vertices@[2 * gradient.0.len() - 2].y_num == rect.bottom * mesh.den,
{
    let n = gradient.0.len();
    let den_wide: i64 = (n - 1) as i64;
    let top = rect.top as i64;
    let bottom = rect.bottom as i64;
    let mut vertices: Vec<Vertex> = Vec::new();
    let mut triangles: Vec<Triangle> = Vec::new();
    for i in 0..n
        invariant
            vertices.len() == 2 * i,
            forall|k: int|
                0 <= k < i ==> {
                    &&& (#[trigger] vertices@[2 * k]).x == rect.left
                    &&& vertices@[2 * k + 1].x == rect.right
                    &&& vertices@[2 * k].y_num == y_numerator(
                        rect.top as int,
                        rect.bottom as int,
                        k,
                        n as int,
                    )
                    &&& vertices@[2 * k + 1].y_num == vertices@[2 * k].y_num
                    &&& vertices@[2 * k].color == gradient.0[k]
                    &&& vertices@[2 * k + 1].color == gradient.0[k]
                },
    {
        proof {
            assert(top * den_wide + (bottom - top) * (i as i64) == y_numerator(
                rect.top as int,
                rect.bottom as int,
                i as int,
                n as int,
            ));
            assert((-0x2000_0000_0000_0000) <= top * den_wide <= 0x2000_0000_0000_0000)
                by (nonlinear_arith)
                requires
                    -0x8000_0000 <= top <= 0x7fff_ffff,
                    0 <= den_wide < 0x4000_0000;
            assert((-0x4000_0000_0000_0000) <= (bottom - top) * (i as i64)
                <= 0x4000_0000_0000_0000) by (nonlinear_arith)
                requires
                    -0x1_0000_0000 <= bottom - top <= 0x1_0000_0000,
                    0 <= (i as i64) < 0x4000_0000;
        }
        let y_num: i64 = top * den_wide + (bottom - top) * (i as i64);
        let color = gradient.0[i];
        let ghost pre = vertices@;
        let v_left = Vertex { x: rect.left, y_num, color };
        let v_right = Vertex { x: rect.right, y_num, color };
        vertices.push(v_left);
        vertices.push(v_right);
        proof {
            assert(vertices@ == pre.push(v_left).push(v_right));
            assert forall|k: int| 0 <= k < i + 1 implies {
                &&& (#[trigger] vertices@[2 * k]).x == rect.left
                &&& vertices@[2 * k + 1].x == rect.right
                &&& vertices@[2 * k].y_num == y_numerator(
                    rect.top as int,
                    rect.bottom as int,
                    k,
                    n as int,
                )
                &&& vertices@[2 * k + 1].y_num == vertices@[2 * k].y_num
                &&& vertices@[2 * k].color == gradient.0[k]
                &&& vertices@[2 * k + 1].color == gradient.0[k]
            } by {
                if k < i {
                    assert(vertices@[2 * k] == pre[2 * k]);
                    assert(vertices@[2 * k + 1] == pre[2 * k + 1]);
                } else {
                    assert(vertices@[2 * k] == v_left);
                    assert(vertices@[2 * k + 1] == v_right);
                }
            }
        }
    }
    for j in 0..n - 1
        invariant
            triangles.len() == 2 * j,
            forall|k: int|
                0 <= k < j ==> {
                    &&& (#[trigger] triangles@[2 * k]) == (Triangle {
                        a: (2 * k) as u32,
                        b: (2 * k + 1) as u32,
                        c: (2 * k + 2) as u32,
                    })
                    &&& triangles@[2 * k + 1] == (Triangle {
                        a: (2 * k + 1) as u32,
                        b: (2 * k + 2) as u32,
                        c: (2 * k + 3) as u32,
                    })
                },
            forall|k: int|
                0 <= k < triangles.len() ==> {
                    &&& (#[trigger] triangles@[k]).a < vertices.len()
                    &&& triangles@[k].b < vertices.len()
                    &&& triangles@[k].c < vertices.len()
                },
    {
        let base: u32 = (2 * j) as u32;
        let ghost pre = triangles@;
        let t_first = Triangle { a: base, b: base + 1, c: base + 2 };
        let t_second = Triangle { a: base + 1, b: base + 2, c: base + 3 };
        triangles.push(t_first);
        triangles.push(t_second);
        proof {
            assert(triangles@ == pre.push(t_first).push(t_second));
            assert forall|k: int| 0 <= k < j + 1 implies {
                &&& (#[trigger] triangles@[2 * k]) == (Triangle {
                    a: (2 * k) as u32,
                    b: (2 * k + 1) as u32,
                    c: (2 * k + 2) as u32,
                })
                &&& triangles@[2 * k + 1] == (Triangle {
                    a: (2 * k + 1) as u32,
                    b: (2 * k + 2) as u32,
                    c: (2 * k + 3) as u32,
                })
            } by {
                if k < j {
                    assert(triangles@[2 * k] == pre[2 * k]);
                    assert(triangles@[2 * k + 1] == pre[2 * k + 1]);
                } else {
                    assert(triangles@[2 * k] == t_first);
                    assert(triangles@[2 * k + 1] == t_second);
                }
            }
        }
    }
    let den: u32 = (n - 1) as u32;
    proof {
        let nn = n as int;
        let t = rect.top as int;
        let b = rect.bottom as int;
        assert(t * (nn - 1) + (b - t) * (nn - 1) == b * (nn - 1)) by (nonlinear_arith);
        assert(y_numerator(t, b, nn - 1, nn) == b * (nn - 1));
        assert(y_numerator(t, b, 0, nn) == t * (nn - 1));
        assert(vertices@[2 * (0 as int)].color == gradient.0[0]);
        assert(vertices@[2 * (nn - 1)].color == gradient.0[nn - 1]);
        assert(vertices@[2 * (nn - 1)].y_num == y_numerator(t, b, nn - 1, nn));
    }
    Mesh { vertices, triangles, den }
}

/// The gradient drawn behind a list of swatches: the entries' colors, in
/// list order.
pub fn gradient_of_entries(entries: &Vec<crate::color::ColorEntry>) -> (g: Gradient)
    ensures
        g.0@ == entries@.map_values(|e: crate::color::ColorEntry| e.color),
{
    let mut stops: Vec<Rgba> = Vec::new();
    for i in 0..entries.len()
        invariant
            stops.len() == i,
            forall|k: int| 0 <= k < i ==> stops@[k] == entries@[k].color,
    {
        stops.push(entries[i].color);
    }
    proof {
        assert(stops@ =~= entries@.map_values(|e: crate::color::ColorEntry| e.color));
    }
    Gradient(stops)
}

} // verus!
