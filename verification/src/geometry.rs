//! The triangle lists of the generated meshes: a cylinder and a cone around the
//! vertical axis, with `n` vertices on each ring.
//!
//! A cylinder has its bottom ring at vertices `0..n`, the bottom center at `n`, its top
//! ring at `n + 1..2n + 1` and the top center at `2n + 1`. A cone has its ring at
//! `0..n`, the bottom center at `n` and the tip at `n + 1`.
use vstd::prelude::*;

verus! {

pub open spec fn cylinder_vertex_count(n: nat) -> nat {
    (n + 1) * 2
}

pub open spec fn cone_vertex_count(n: nat) -> nat {
    n + 2
}

/// Index `k` of the cylinder's triangle list: `n` bottom triangles, `n` top triangles,
/// then two wall triangles per side.
pub open spec fn cylinder_index(n: nat, k: int) -> int {
    let top: int = n as int + 1;
    if k < 3 * n {
        let i = k / 3;
        let r = k % 3;
        if r == 0 {
            i
        } else if r == 1 {
            (i + 1) % (n as int)
        } else {
            n as int
        }
    } else if k < 6 * n {
        let i = (k - 3 * n) / 3;
        let r = (k - 3 * n) % 3;
        if r == 0 {
            top + (i + 1) % (n as int)
        } else if r == 1 {
            top + i
        } else {
            (top + n) as int
        }
    } else {
        let i = (k - 6 * n) / 6;
        let r = (k - 6 * n) % 6;
        if r == 0 {
            i
        } else if r == 1 {
            top + i
        } else if r == 2 {
            (i + 1) % (n as int)
        } else if r == 3 {
            (i + 1) % (n as int)
        } else if r == 4 {
            top + i
        } else {
            top + (i + 1) % (n as int)
        }
    }
}

/// Index `k` of the cone's triangle list: `n` bottom triangles, then `n` wall
/// triangles up to the tip.
pub open spec fn cone_index(n: nat, k: int) -> int {
    if k < 3 * n {
        let i = k / 3;
        let r = k % 3;
        if r == 0 {
            i
        } else if r == 1 {
            (i + 1) % (n as int)
        } else {
            n as int
        }
    } else {
        let i = (k - 3 * n) / 3;
        let r = (k - 3 * n) % 3;
        if r == 0 {
            i
        } else if r == 1 {
            (n + 1) as int
        } else {
            (i + 1) % (n as int)
        }
    }
}

proof fn lemma_div_mod_3(i: int, r: int)
    requires
        0 <= r < 3,
    ensures
        (3 * i + r) / 3 == i,
        (3 * i + r) % 3 == r,
{
    assert((3 * i + r) / 3 == i && (3 * i + r) % 3 == r) by (nonlinear_arith)
        requires
            0 <= r < 3,
    ;
}

proof fn lemma_div_mod_6(i: int, r: int)
    requires
        0 <= r < 6,
    ensures
        (6 * i + r) / 6 == i,
        (6 * i + r) % 6 == r,
{
    assert((6 * i + r) / 6 == i && (6 * i + r) % 6 == r) by (nonlinear_arith)
        requires
            0 <= r < 6,
    ;
}

/// Position `k` of the triangle list belongs to the triangles of side `i` of a
/// cylinder: its bottom and top triangles and its two wall triangles.
pub open spec fn cylinder_side_position(n: nat, i: int, k: int) -> bool {
    ||| 3 * i <= k < 3 * i + 3
    ||| 3 * n + 3 * i <= k < 3 * n + 3 * i + 3
    ||| 6 * n + 6 * i <= k < 6 * n + 6 * i + 6
}

/// Writes the three indices from position `start` on, leaving the rest as it was.
fn write_triangle(indices: &mut Vec<u32>, start: usize, a: u32, b: u32, c: u32)
    requires
        start + 3 <= old(indices)@.len(),
    ensures
        final(indices)@.len() == old(indices)@.len(),
        final(indices)@[start as int] == a,
        final(indices)@[start + 1] == b,
        final(indices)@[start + 2] == c,
        forall|k: int| 0 <= k < old(indices)@.len() && !(start <= k < start + 3) ==> #[trigger] final(indices)@[k] == old(indices)@[k],
{
    let len = indices.len();
    assert(start + 3 <= len);
    indices.set(start, a);
    indices.set(start + 1, b);
    indices.set(start + 2, c);
}

/// What side `i` of the cylinder puts at each of its positions.
proof fn lemma_cylinder_side_values(n: nat, i: int)
    requires
        0 <= i < n,
    ensures
        cylinder_index(n, 3 * i) == i,
        cylinder_index(n, 3 * i + 1) == (i + 1) % (n as int),
        cylinder_index(n, 3 * i + 2) == n,
        cylinder_index(n, 3 * n + 3 * i) == n + 1 + (i + 1) % (n as int),
        cylinder_index(n, 3 * n + 3 * i + 1) == n + 1 + i,
        cylinder_index(n, 3 * n + 3 * i + 2) == 2 * n + 1,
        cylinder_index(n, 6 * n + 6 * i) == i,
        cylinder_index(n, 6 * n + 6 * i + 1) == n + 1 + i,
        cylinder_index(n, 6 * n + 6 * i + 2) == (i + 1) % (n as int),
        cylinder_index(n, 6 * n + 6 * i + 3) == (i + 1) % (n as int),
        cylinder_index(n, 6 * n + 6 * i + 4) == n + 1 + i,
        cylinder_index(n, 6 * n + 6 * i + 5) == n + 1 + (i + 1) % (n as int),
{
    lemma_div_mod_3(i, 0);
    lemma_div_mod_3(i, 1);
    lemma_div_mod_3(i, 2);
    lemma_div_mod_6(i, 0);
    lemma_div_mod_6(i, 1);
    lemma_div_mod_6(i, 2);
    lemma_div_mod_6(i, 3);
    lemma_div_mod_6(i, 4);
    lemma_div_mod_6(i, 5);
    assert(3 * n + 3 * i - 3 * n == 3 * i);
    assert(3 * n + 3 * i + 1 - 3 * n == 3 * i + 1);
    assert(3 * n + 3 * i + 2 - 3 * n == 3 * i + 2);
}

/// Writes the triangles of side `i`.
fn write_cylinder_side(indices: &mut Vec<u32>, n: usize, i: usize)
    requires
        i < n,
        2 * n + 1 <= u32::MAX,
        12 * n <= usize::MAX,
        old(indices)@.len() == 12 * n,
    ensures
        final(indices)@.len() == 12 * n,
        forall|k: int| 0 <= k < 12 * n ==> #[trigger] final(indices)@[k] == if cylinder_side_position(n as nat, i as int, k) {
            cylinder_index(n as nat, k) as u32
        } else {
            old(indices)@[k]
        },
{
    let top_offset: usize = n + 1;
    let bottom_center_index = n as u32;
    let top_center_index = top_offset as u32 + n as u32;
    let wall_size = n * 6;
    let bottom_index = i as u32;
    let next_bottom_index = (i as u32 + 1) % n as u32;
    let top_index = top_offset as u32 + i as u32;
    let next_top_index = top_offset as u32 + (i as u32 + 1) % n as u32;
    let ghost before = indices@;

    // Bottom triangle
    write_triangle(indices, i * 3, bottom_index, next_bottom_index, bottom_center_index);
    // Top triangle
    write_triangle(indices, n * 3 + i * 3, next_top_index, top_index, top_center_index);
    // Wall: two triangles
    write_triangle(indices, wall_size + i * 6, bottom_index, top_index, next_bottom_index);
    write_triangle(indices, wall_size + i * 6 + 3, next_bottom_index, top_index, next_top_index);

    proof {
        lemma_cylinder_side_values(n as nat, i as int);
        let nn = n as nat;
        let ii = i as int;
        assert forall|k: int| 0 <= k < 12 * n implies #[trigger] indices@[k] == if cylinder_side_position(nn, ii, k) {
            cylinder_index(nn, k) as u32
        } else {
            before[k]
        } by {
            if k == 3 * ii || k == 3 * ii + 1 || k == 3 * ii + 2 {
            } else if k == 3 * n + 3 * ii || k == 3 * n + 3 * ii + 1 || k == 3 * n + 3 * ii + 2 {
            } else if 6 * n + 6 * ii <= k < 6 * n + 6 * ii + 6 {
            } else {
                assert(!cylinder_side_position(nn, ii, k));
            }
        }
    }
}

/// The cylinder's triangle list.
pub fn cylinder_indices(n: usize) -> (indices: Vec<u32>)
    requires
        2 * n + 1 <= u32::MAX,
        12 * n <= usize::MAX,
    ensures
        indices@.len() == 12 * n,
        forall|k: int| 0 <= k < 12 * n ==> #[trigger] indices@[k] == cylinder_index(n as nat, k),
{
    let mut indices: Vec<u32> = vec![0; n * 12];
    let mut i: usize = 0;
    while i < n
        invariant
            i <= n,
            2 * n + 1 <= u32::MAX,
            12 * n <= usize::MAX,
            indices@.len() == 12 * n,
            forall|k: int| 0 <= k < 12 * n && (exists|j: int| 0 <= j < i && #[trigger] cylinder_side_position(n as nat, j, k))
                ==> #[trigger] indices@[k] == cylinder_index(n as nat, k),
        decreases n - i,
    {
        let ghost before = indices@;
        write_cylinder_side(&mut indices, n, i);
        proof {
            assert forall|k: int| 0 <= k < 12 * n && (exists|j: int| 0 <= j < i + 1 && #[trigger] cylinder_side_position(n as nat, j, k))
                implies #[trigger] indices@[k] == cylinder_index(n as nat, k) by {
                let j = choose|j: int| 0 <= j < i + 1 && #[trigger] cylinder_side_position(n as nat, j, k);
                assert(indices@[k] == if cylinder_side_position(n as nat, i as int, k) {
                    cylinder_index(n as nat, k) as u32
                } else {
                    before[k]
                });
                if !cylinder_side_position(n as nat, i as int, k) {
                    assert(j < i);
                }
                assert(0 <= cylinder_index(n as nat, k) <= u32::MAX) by {
                    cylinder_indices_in_range(n as nat, k);
                }
            }
        }
        i += 1;
    }
    proof {
        assert forall|k: int| 0 <= k < 12 * n implies #[trigger] indices@[k] == cylinder_index(n as nat, k) by {
            let j: int = if k < 3 * n {
                k / 3
            } else if k < 6 * n {
                (k - 3 * n) / 3
            } else {
                (k - 6 * n) / 6
            };
            assert(0 <= j < n && cylinder_side_position(n as nat, j, k)) by (nonlinear_arith)
                requires
                    0 <= k < 12 * n,
                    j == if k < 3 * n {
                        k / 3
                    } else if k < 6 * n {
                        (k - 3 * n) / 3
                    } else {
                        (k - 6 * n) / 6
                    },
            ;
        }
    }
    indices
}

/// The cone's triangle list.
pub fn cone_indices(n: usize) -> (indices: Vec<u32>)
    requires
        n + 1 <= u32::MAX,
        6 * n <= usize::MAX,
    ensures
        indices@.len() == 6 * n,
        forall|k: int| 0 <= k < 6 * n ==> #[trigger] indices@[k] == cone_index(n as nat, k),
{
    let mut indices: Vec<u32> = vec![0; n * 6];
    let bottom_center_index = n as u32;
    let top_center_index = (n + 1) as u32;
    let ws = n * 3;
    let mut i: usize = 0;
    while i < n
        invariant
            i <= n,
            n + 1 <= u32::MAX,
            6 * n <= usize::MAX,
            ws == 3 * n,
            bottom_center_index == n,
            top_center_index == n + 1,
            indices@.len() == 6 * n,
            forall|k: int| 0 <= k < 3 * i ==> #[trigger] indices@[k] == cone_index(n as nat, k),
            forall|k: int| 3 * n <= k < 3 * n + 3 * i ==> #[trigger] indices@[k] == cone_index(n as nat, k),
        decreases n - i,
    {
        let bottom_index = i as u32;
        let next_bottom_index = (i as u32 + 1) % n as u32;

        indices.set(i * 3, bottom_index);
        indices.set(i * 3 + 1, next_bottom_index);
        indices.set(i * 3 + 2, bottom_center_index);

        indices.set(ws + i * 3, bottom_index);
        indices.set(ws + i * 3 + 1, top_center_index);
        indices.set(ws + i * 3 + 2, next_bottom_index);

        proof {
            let ii = i as int;
            let nn = n as nat;
            lemma_div_mod_3(ii, 0);
            lemma_div_mod_3(ii, 1);
            lemma_div_mod_3(ii, 2);
            assert(3 * ii + 2 < 3 * n);
            assert(indices@[3 * ii] == cone_index(nn, 3 * ii));
            assert(indices@[3 * ii + 1] == cone_index(nn, 3 * ii + 1));
            assert(indices@[3 * ii + 2] == cone_index(nn, 3 * ii + 2));
            assert(3 * n + 3 * ii - 3 * n == 3 * ii);
            assert(indices@[3 * n + 3 * ii] == cone_index(nn, 3 * n + 3 * ii));
            assert(indices@[3 * n + 3 * ii + 1] == cone_index(nn, 3 * n + 3 * ii + 1));
            assert(indices@[3 * n + 3 * ii + 2] == cone_index(nn, 3 * n + 3 * ii + 2));
        }
        i += 1;
    }
    indices
}

/// Every index of a cylinder's triangle list names one of its vertices.
pub proof fn cylinder_indices_in_range(n: nat, k: int)
    requires
        0 <= k < 12 * n,
    ensures
        0 <= cylinder_index(n, k) < cylinder_vertex_count(n),
{
    assert(n > 0);
    if k < 3 * n {
        assert(0 <= k / 3 < n) by (nonlinear_arith)
            requires
                0 <= k < 3 * n,
        ;
    } else if k < 6 * n {
        assert(0 <= (k - 3 * n) / 3 < n) by (nonlinear_arith)
            requires
                3 * n <= k < 6 * n,
        ;
    } else {
        assert(0 <= (k - 6 * n) / 6 < n) by (nonlinear_arith)
            requires
                6 * n <= k < 12 * n,
        ;
    }
}

/// Every index of a cone's triangle list names one of its vertices.
pub proof fn cone_indices_in_range(n: nat, k: int)
    requires
        0 <= k < 6 * n,
    ensures
        0 <= cone_index(n, k) < cone_vertex_count(n),
{
    assert(n > 0);
    if k < 3 * n {
        assert(0 <= k / 3 < n) by (nonlinear_arith)
            requires
                0 <= k < 3 * n,
        ;
    } else {
        assert(0 <= (k - 3 * n) / 3 < n) by (nonlinear_arith)
            requires
                3 * n <= k < 6 * n,
        ;
    }
}

} // verus!
