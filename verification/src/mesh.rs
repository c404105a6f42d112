use vstd::prelude::*;

verus! {

use vstd::arithmetic::div_mod::{
    lemma_div_pos_is_pos, lemma_fundamental_div_mod, lemma_fundamental_div_mod_converse,
    lemma_mod_bound, lemma_multiply_divide_lt,
};
use vstd::arithmetic::power::{lemma0_pow, lemma_pow0, lemma_pow_increases, lemma_pow_positive, pow};

use crate::program_state::{cam_far, cam_near};
use crate::rat::{rat_eq, rat_le, Rat};
use crate::vertex::Vertex;

/// How the index buffer of a [`Mesh`] is to be drawn. Only indexed triangle
/// lists are generated here.
#[derive(Clone, Copy, Debug, PartialEq, Eq, Structural)]
pub enum PrimitiveType {
    TrianglesList,
}

/// An indexed triangle mesh: vertices (index = vertex id) and a flat list of
/// index triples.
#[derive(Debug)]
pub struct Mesh {
    pub vertices: Vec<Vertex>,
    pub indices: Vec<u32>,
    pub primitive_type: PrimitiveType,
}

impl Mesh {
    /// Indices come in whole triples and every index names a vertex.
    pub open spec fn wf(self) -> bool {
        &&& self.indices.len() % 3 == 0
        &&& forall|j: int|
            0 <= j < self.indices.len() ==> (#[trigger] self.indices[j]) < self.vertices.len()
    }
}

/// Position along one lattice axis: column `c` of the `r + 1` columns
/// spanning `[-1, 1]`, i.e. `2*c/r - 1`. A degenerate axis (`r == 0`) puts
/// its single column on the lower edge.
pub open spec fn lattice_coord(c: int, r: int) -> (int, int) {
    if r == 0 {
        (-1, 1)
    } else {
        (2 * c - r, r)
    }
}

/// Depth of shell `i` of `n` total: `near + (i/(n-1))^e` for `n >= 2` — the
/// power-law placement that concentrates shells near the camera for `e > 1` —
/// and the near plane alone for a single shell.
pub open spec fn shell_depth(i: int, n: int, e: int) -> (int, int) {
    if n <= 1 {
        cam_near()
    } else {
        let p = pow(n - 1, e as nat);
        (p + 100 * pow(i, e as nat), 100 * p)
    }
}

/// Entry `j` of the index buffer for an `rx`-by-`ry` cell grid over a lattice
/// of stride `rx + 1`: cells are visited row-major, and each cell with
/// lower-left lattice index `i` emits the two triangles
/// `(i+s+1, i, i+s)` and `(i, i+s+1, i+1)`, `s` the stride — a consistent
/// counter-clockwise winding.
pub open spec fn grid_index_at(rx: int, j: int) -> int {
    let cell = j / 6;
    let row = cell / rx;
    let col = cell % rx;
    let i = row * (rx + 1) + col;
    let s = rx + 1;
    let pos = j % 6;
    if pos == 0 {
        i + s + 1
    } else if pos == 1 {
        i
    } else if pos == 2 {
        i + s
    } else if pos == 3 {
        i
    } else if pos == 4 {
        i + s + 1
    } else {
        i + 1
    }
}

/// The mesh of one shell: a full `(rx+1) x (ry+1)` vertex lattice at depth
/// `z`, triangulated cell by cell.
pub open spec fn mesh_matches(m: Mesh, rx: int, ry: int, z: (int, int)) -> bool {
    &&& m.primitive_type == PrimitiveType::TrianglesList
    &&& m.vertices.len() == (rx + 1) * (ry + 1)
    &&& forall|vi: int|
        0 <= vi < m.vertices.len() ==> (#[trigger] m.vertices[vi])@ == (
            lattice_coord(vi % (rx + 1), rx),
            lattice_coord(vi / (rx + 1), ry),
            z,
        )
    &&& m.indices.len() == 6 * (rx * ry)
    &&& forall|j: int|
        0 <= j < m.indices.len() ==> (#[trigger] m.indices[j]) as int == grid_index_at(rx, j)
}

/// Raising both of two ordered non-negative bases to the same power keeps
/// the order (and the results non-negative).
pub proof fn lemma_pow_le_base(a: int, b: int, e: nat)
    requires
        0 <= a <= b,
    ensures
        0 <= pow(a, e) <= pow(b, e),
    decreases e,
{
    reveal(pow);
    if e > 0 {
        lemma_pow_le_base(a, b, (e - 1) as nat);
        assert(0 <= a * pow(a, (e - 1) as nat) <= b * pow(b, (e - 1) as nat))
            by (nonlinear_arith)
            requires
                0 <= a <= b,
                0 <= pow(a, (e - 1) as nat) <= pow(b, (e - 1) as nat),
        ;
    }
}

/// Law: a single shell sits exactly on the near plane, whatever the
/// exponent.
pub proof fn lemma_single_shell_on_near_plane(e: int)
    ensures
        shell_depth(0, 1, e) == cam_near(),
{
}

/// Law: for two or more shells and a non-negative exponent, shell depth is
/// monotonically non-decreasing in the shell index.
pub proof fn lemma_shell_depths_monotone(n: int, e: int, i: int, j: int)
    requires
        n >= 2,
        e >= 0,
        0 <= i <= j < n,
    ensures
        rat_le(shell_depth(i, n, e), shell_depth(j, n, e)),
{
    let p = pow(n - 1, e as nat);
    let qi = pow(i, e as nat);
    let qj = pow(j, e as nat);
    lemma_pow_positive(n - 1, e as nat);
    lemma_pow_le_base(i, j, e as nat);
    assert((p + 100 * qi) * (100 * p) <= (p + 100 * qj) * (100 * p)) by (nonlinear_arith)
        requires
            1 <= p,
            0 <= qi <= qj,
    ;
}

/// Law: every shell depth lies in `[near, near + 1]`; the farthest shell is
/// exactly `near + 1`, and — for a positive exponent — the nearest shell is
/// exactly `near`.
pub proof fn lemma_shell_depths_span(n: int, e: int, i: int)
    requires
        n >= 2,
        e >= 0,
        0 <= i < n,
    ensures
        rat_le(cam_near(), shell_depth(i, n, e)),
        rat_le(shell_depth(i, n, e), cam_far()),
        rat_eq(shell_depth(n - 1, n, e), cam_far()),
        e >= 1 ==> rat_eq(shell_depth(0, n, e), cam_near()),
{
    let p = pow(n - 1, e as nat);
    let qi = pow(i, e as nat);
    lemma_pow_positive(n - 1, e as nat);
    lemma_pow_le_base(i, n - 1, e as nat);
    assert(1 * (100 * p) <= (p + 100 * qi) * 100) by (nonlinear_arith)
        requires
            1 <= p,
            0 <= qi,
    ;
    assert((p + 100 * qi) * 100 <= 101 * (100 * p)) by (nonlinear_arith)
        requires
            1 <= p,
            0 <= qi <= p,
    ;
    assert((p + 100 * p) * 100 == 101 * (100 * p)) by (nonlinear_arith);
    if e >= 1 {
        lemma0_pow(e as nat);
        assert(rat_eq(shell_depth(0, n, e), cam_near()));
    }
}

/// Law: every index the grid triangulation emits names a vertex of the
/// `(rx+1) x (ry+1)` lattice.
pub proof fn lemma_grid_indices_in_bounds(rx: int, ry: int, j: int)
    requires
        rx >= 1,
        ry >= 1,
        0 <= j < 6 * (rx * ry),
    ensures
        0 <= grid_index_at(rx, j) < (rx + 1) * (ry + 1),
{
    let cell = j / 6;
    let row = cell / rx;
    let col = cell % rx;
    lemma_div_pos_is_pos(j, 6);
    lemma_multiply_divide_lt(j, 6, rx * ry);
    lemma_div_pos_is_pos(cell, rx);
    lemma_multiply_divide_lt(cell, rx, ry);
    lemma_mod_bound(cell, rx);
    assert(row * (rx + 1) + col + (rx + 1) + 1 <= (rx + 1) * (ry + 1) - 1) by (nonlinear_arith)
        requires
            0 <= col < rx,
            0 <= row < ry,
            1 <= rx,
            1 <= ry,
    ;
    assert(0 <= row * (rx + 1) + col) by (nonlinear_arith)
        requires
            0 <= col,
            0 <= row,
            1 <= rx,
    ;
}

/// Does `base ^ exp` stay within `bound`? Decided without ever overflowing,
/// by stopping as soon as a partial power crosses the bound.
fn pow_leq(base: u64, exp: u32, bound: u64) -> (r: bool)
    requires
        bound >= 1,
    ensures
        r == (pow(base as int, exp as nat) <= bound),
{
    proof {
        lemma_pow0(base as int);
    }
    if base == 0 {
        if exp == 0 {
            // 0^0 == 1
            return true;
        }
        proof {
            lemma0_pow(exp as nat);
        }
        return true;
    }
    if base == 1 {
        proof {
            vstd::arithmetic::power::lemma1_pow(exp as nat);
        }
        return true;
    }
    let mut acc: u64 = 1;
    let mut i: u32 = 0;
    while i < exp
        invariant
            i <= exp,
            base >= 2,
            bound >= 1,
            acc == pow(base as int, i as nat),
            acc <= bound,
        decreases exp - i,
    {
        proof {
            reveal(pow);
            assert(pow(base as int, (i + 1) as nat) == base * pow(base as int, i as nat));
            assert(acc * base == base * pow(base as int, i as nat)) by (nonlinear_arith)
                requires
                    acc == pow(base as int, i as nat),
            ;
        }
        if acc > bound / base {
            // acc * base > bound, and further powers only grow
            proof {
                lemma_fundamental_div_mod(bound as int, base as int);
                lemma_mod_bound(bound as int, base as int);
                assert((acc as int) * (base as int) > bound) by (nonlinear_arith)
                    requires
                        acc as int > (bound as int) / (base as int),
                        base as int >= 1,
                        bound as int == (base as int) * ((bound as int) / (base as int)) + (
                        bound as int) % (base as int),
                        0 <= (bound as int) % (base as int) < (base as int),
                ;
                lemma_pow_increases(base as nat, (i + 1) as nat, exp as nat);
            }
            return false;
        }
        proof {
            lemma_fundamental_div_mod(bound as int, base as int);
            lemma_mod_bound(bound as int, base as int);
            assert((acc as int) * (base as int) <= bound) by (nonlinear_arith)
                requires
                    acc as int <= (bound as int) / (base as int),
                    base as int >= 1,
                    bound as int == (base as int) * ((bound as int) / (base as int)) + (
                    bound as int) % (base as int),
                    0 <= (bound as int) % (base as int),
            ;
        }
        acc = acc * base;
        i = i + 1;
    }
    true
}

/// Do a list of resolutions and a depth exponent satisfy what
/// [`gen_cam_shells`] asks of them? Exactly the generator's preconditions,
/// decided at run time: every lattice must fit in 32-bit indices, and — for
/// two or more shells — the exponent must be non-negative with the depth
/// denominators within exact 64-bit range.
pub fn shell_input_fits(shell_resolutions: &Vec<(usize, usize)>, z_pow: i32) -> (ok: bool)
    ensures
        ok == ({
            &&& forall|t: int|
                0 <= t < shell_resolutions.len() ==> ((#[trigger] shell_resolutions[t]).0 + 1) * (
                shell_resolutions[t].1 + 1) <= 0xFFFF_FFFF
            &&& shell_resolutions.len() >= 2 ==> z_pow >= 0 && 101 * pow(
                (shell_resolutions.len() - 1) as int,
                z_pow as nat,
            ) <= i64::MAX
        }),
{
    let n = shell_resolutions.len();
    let mut k: usize = 0;
    while k < n
        invariant
            n == shell_resolutions.len(),
            k <= n,
            forall|t: int|
                0 <= t < k ==> ((#[trigger] shell_resolutions[t]).0 + 1) * (
                shell_resolutions[t].1 + 1) <= 0xFFFF_FFFF,
        decreases n - k,
    {
        let (rx, ry) = shell_resolutions[k];
        if rx >= 0xFFFF_FFFF || ry >= 0xFFFF_FFFF {
            proof {
                assert((rx + 1) * (ry + 1) > 0xFFFF_FFFF) by (nonlinear_arith)
                    requires
                        rx >= 0xFFFF_FFFF || ry >= 0xFFFF_FFFF,
                        rx >= 0,
                        ry >= 0,
                ;
            }
            return false;
        }
        proof {
            assert(((rx as int) + 1) * ((ry as int) + 1) <= 0xFFFF_FFFF_FFFF_FFFF)
                by (nonlinear_arith)
                requires
                    0 <= rx as int <= 0xFFFF_FFFE,
                    0 <= ry as int <= 0xFFFF_FFFE,
            ;
        }
        let fits = (rx as u64 + 1) * (ry as u64 + 1) <= 0xFFFF_FFFF;
        if !fits {
            return false;
        }
        k = k + 1;
    }
    if n >= 2 {
        if z_pow < 0 {
            return false;
        }
        // 101 * pow <= i64::MAX exactly when pow <= i64::MAX / 101
        let bound: u64 = (i64::MAX / 101) as u64;
        let ok = pow_leq((n - 1) as u64, z_pow as u32, bound);
        proof {
            assert((n - 1) as u64 as int == (n - 1) as int);
            assert(z_pow as u32 as nat == z_pow as nat);
        }
        return ok;
    }
    true
}

/// Integer power by repeated multiplication.
fn pow_exec(base: u64, exp: u32) -> (r: u64)
    requires
        pow(base as int, exp as nat) <= i64::MAX,
    ensures
        r == pow(base as int, exp as nat),
{
    proof {
        lemma_pow0(base as int);
    }
    let mut acc: u64 = 1;
    let mut i: u32 = 0;
    while i < exp
        invariant
            i <= exp,
            acc == pow(base as int, i as nat),
            pow(base as int, exp as nat) <= i64::MAX,
        decreases exp - i,
    {
        proof {
            reveal(pow);
            assert(pow(base as int, (i + 1) as nat) == base * pow(base as int, i as nat));
            if base >= 1 {
                lemma_pow_increases(base as nat, (i + 1) as nat, exp as nat);
            }
            assert(acc * base == base * pow(base as int, i as nat)) by (nonlinear_arith)
                requires
                    acc == pow(base as int, i as nat),
            ;
        }
        acc = acc * base;
        i = i + 1;
    }
    acc
}

/// Depth of shell `i` of `n` as an exact rational, per [`shell_depth`].
fn shell_depth_exec(i: usize, n: usize, e: i32) -> (z: Rat)
    requires
        i < n,
        n >= 2 ==> e >= 0 && 101 * pow((n - 1) as int, e as nat) <= i64::MAX,
    ensures
        z.wf(),
        z@ == shell_depth(i as int, n as int, e as int),
{
    if n <= 1 {
        Rat { num: 1, den: 100 }
    } else {
        proof {
            lemma_pow_positive((n - 1) as int, e as nat);
            lemma_pow_le_base(i as int, (n - 1) as int, e as nat);
            assert((n - 1) as u64 as int == (n - 1) as int);
            assert(e as u32 as nat == e as nat);
        }
        let p = pow_exec((n - 1) as u64, e as u32);
        let q = pow_exec(i as u64, e as u32);
        Rat { num: (p as i64) + 100 * (q as i64), den: 100 * (p as i64) }
    }
}

/// Position of lattice column `c` of `r + 1`, per [`lattice_coord`].
fn lattice_coord_exec(c: usize, r: usize) -> (x: Rat)
    requires
        c <= r,
        r <= 0xFFFF_FFFF,
    ensures
        x.wf(),
        x@ == lattice_coord(c as int, r as int),
{
    if r == 0 {
        Rat { num: -1, den: 1 }
    } else {
        Rat { num: 2 * (c as i64) - (r as i64), den: r as i64 }
    }
}

/// The full `(rx+1) x (ry+1)` vertex lattice at depth `z`, flat row-major.
fn grid_vertices(rx: usize, ry: usize, z: Rat) -> (verts: Vec<Vertex>)
    requires
        z.wf(),
        (rx + 1) * (ry + 1) <= 0xFFFF_FFFF,
    ensures
        verts.len() == (rx + 1) * (ry + 1),
        forall|vi: int|
            0 <= vi < verts.len() ==> (#[trigger] verts[vi])@ == (
                lattice_coord(vi % ((rx + 1) as int), rx as int),
                lattice_coord(vi / ((rx + 1) as int), ry as int),
                z@,
            ),
{
    proof {
        assert((rx + 1) * 1 <= (rx + 1) * (ry + 1) && (ry + 1) * 1 <= (rx + 1) * (ry + 1))
            by (nonlinear_arith)
            requires
                rx >= 0,
                ry >= 0,
        ;
    }
    let count: usize = (rx + 1) * (ry + 1);
    let mut verts: Vec<Vertex> = Vec::new();
    let mut vi: usize = 0;
    while vi < count
        invariant
            count == (rx + 1) * (ry + 1),
            count <= 0xFFFF_FFFF,
            rx < count,
            ry < count,
            z.wf(),
            verts.len() == vi,
            vi <= count,
            forall|t: int|
                0 <= t < vi ==> (#[trigger] verts[t])@ == (
                    lattice_coord(t % ((rx + 1) as int), rx as int),
                    lattice_coord(t / ((rx + 1) as int), ry as int),
                    z@,
                ),
        decreases count - vi,
    {
        let col = vi % (rx + 1);
        let row = vi / (rx + 1);
        proof {
            lemma_mod_bound(vi as int, (rx + 1) as int);
            lemma_div_pos_is_pos(vi as int, (rx + 1) as int);
            lemma_multiply_divide_lt(vi as int, (rx + 1) as int, (ry + 1) as int);
        }
        let x = lattice_coord_exec(col, rx);
        let y = lattice_coord_exec(row, ry);
        verts.push(Vertex { x, y, z });
        vi = vi + 1;
    }
    verts
}

/// The index buffer of the grid triangulation, per [`grid_index_at`].
fn grid_indices(rx: usize, ry: usize) -> (idx: Vec<u32>)
    requires
        (rx + 1) * (ry + 1) <= 0xFFFF_FFFF,
    ensures
        idx.len() == 6 * ((rx * ry) as int),
        forall|j: int|
            0 <= j < idx.len() ==> (#[trigger] idx[j]) as int == grid_index_at(rx as int, j),
{
    proof {
        assert((rx + 1) * 1 <= (rx + 1) * (ry + 1)) by (nonlinear_arith)
            requires
                rx >= 0,
                ry >= 0,
        ;
    }
    let stride: usize = rx + 1;
    let mut idx: Vec<u32> = Vec::new();
    let mut row: usize = 0;
    while row < ry
        invariant
            stride == rx + 1,
            (rx + 1) * (ry + 1) <= 0xFFFF_FFFF,
            row <= ry,
            idx.len() == 6 * ((rx * row) as int),
            forall|j: int|
                0 <= j < idx.len() ==> (#[trigger] idx[j]) as int == grid_index_at(rx as int, j),
        decreases ry - row,
    {
        let mut col: usize = 0;
        while col < rx
            invariant
                stride == rx + 1,
                (rx + 1) * (ry + 1) <= 0xFFFF_FFFF,
                row < ry,
                col <= rx,
                idx.len() == 6 * ((rx * row) as int) + 6 * (col as int),
                forall|j: int|
                    0 <= j < idx.len() ==> (#[trigger] idx[j]) as int == grid_index_at(rx as int, j),
            decreases rx - col,
        {
            proof {
                assert(row * (rx + 1) + col + (rx + 1) + 1 <= (rx + 1) * (ry + 1) - 1)
                    by (nonlinear_arith)
                    requires
                        0 <= col < rx,
                        0 <= row < ry,
                ;
                assert(rx * row + col < rx * ry) by (nonlinear_arith)
                    requires
                        0 <= col < rx,
                        0 <= row < ry,
                ;
            }
            let i: usize = row * stride + col;
            idx.push((i + stride + 1) as u32);
            idx.push(i as u32);
            idx.push((i + stride) as u32);
            idx.push(i as u32);
            idx.push((i + stride + 1) as u32);
            idx.push((i + 1) as u32);
            proof {
                let cell = (rx * row + col) as int;
                let rxi = rx as int;
                lemma_fundamental_div_mod_converse(6 * cell + 0, 6, cell, 0);
                lemma_fundamental_div_mod_converse(6 * cell + 1, 6, cell, 1);
                lemma_fundamental_div_mod_converse(6 * cell + 2, 6, cell, 2);
                lemma_fundamental_div_mod_converse(6 * cell + 3, 6, cell, 3);
                lemma_fundamental_div_mod_converse(6 * cell + 4, 6, cell, 4);
                lemma_fundamental_div_mod_converse(6 * cell + 5, 6, cell, 5);
                assert((rx as int) * (row as int) == (row as int) * (rx as int))
                    by (nonlinear_arith);
                lemma_fundamental_div_mod_converse(cell, rxi, row as int, col as int);
            }
            col = col + 1;
        }
        proof {
            assert(rx * row + rx == rx * (row + 1)) by (nonlinear_arith);
        }
        row = row + 1;
    }
    idx
}

/// One indexed triangle mesh per requested grid resolution, in input order:
/// shell `k` of `n` is a full vertex lattice spanning `[-1, 1]^2` at the
/// power-law depth of [`shell_depth`], triangulated per [`grid_index_at`].
/// Zero-area resolutions yield their lattice with an empty index list.
/// Whether an input meets the bounds asked for here can be decided at run
/// time with [`shell_input_fits`].
pub fn gen_cam_shells(shell_resolutions: &Vec<(usize, usize)>, z_pow: i32) -> (meshes: Vec<Mesh>)
    requires
        forall|t: int|
            0 <= t < shell_resolutions.len() ==> ((#[trigger] shell_resolutions[t]).0 + 1) * (
            shell_resolutions[t].1 + 1) <= 0xFFFF_FFFF,
        shell_resolutions.len() >= 2 ==> z_pow >= 0 && 101 * pow(
            (shell_resolutions.len() - 1) as int,
            z_pow as nat,
        ) <= i64::MAX,
    ensures
        meshes.len() == shell_resolutions.len(),
        forall|t: int|
            0 <= t < meshes.len() ==> mesh_matches(
                #[trigger] meshes[t],
                shell_resolutions[t].0 as int,
                shell_resolutions[t].1 as int,
                shell_depth(t, shell_resolutions.len() as int, z_pow as int),
            ),
        forall|t: int| 0 <= t < meshes.len() ==> (#[trigger] meshes[t]).wf(),
{
    let n = shell_resolutions.len();
    let mut meshes: Vec<Mesh> = Vec::new();
    let mut k: usize = 0;
    while k < n
        invariant
            n == shell_resolutions.len(),
            k <= n,
            meshes.len() == k,
            forall|t: int|
                0 <= t < n ==> ((#[trigger] shell_resolutions[t]).0 + 1) * (
                shell_resolutions[t].1 + 1) <= 0xFFFF_FFFF,
            n >= 2 ==> z_pow >= 0 && 101 * pow((n - 1) as int, z_pow as nat) <= i64::MAX,
            forall|t: int|
                0 <= t < k ==> mesh_matches(
                    #[trigger] meshes[t],
                    shell_resolutions[t].0 as int,
                    shell_resolutions[t].1 as int,
                    shell_depth(t, n as int, z_pow as int),
                ),
            forall|t: int| 0 <= t < k ==> (#[trigger] meshes[t]).wf(),
        decreases n - k,
    {
        let (rx, ry) = shell_resolutions[k];
        let z = shell_depth_exec(k, n, z_pow);
        let verts = grid_vertices(rx, ry, z);
        let tris = grid_indices(rx, ry);
        let m = Mesh { vertices: verts, indices: tris, primitive_type: PrimitiveType::TrianglesList };
        proof {
            assert((6 * ((rx * ry) as int)) % 3 == 0) by (nonlinear_arith);
            if rx >= 1 && ry >= 1 {
                assert forall|j: int| 0 <= j < m.indices.len() implies (#[trigger] m.indices[j])
                    < m.vertices.len() by {
                    lemma_grid_indices_in_bounds(rx as int, ry as int, j);
                }
            } else {
                assert((rx as int) * (ry as int) == 0) by (nonlinear_arith)
                    requires
                        rx == 0 || ry == 0,
                ;
            }
        }
        meshes.push(m);
        k = k + 1;
    }
    meshes
}

} // verus!
