//! Per-mesh geometry buffers.
//!
//! A mesh's primitives are flattened into one position buffer and one index
//! buffer: positions are concatenated, and each primitive's indices are
//! shifted by the vertex count of the primitives before it, so they stay
//! valid into the concatenated buffer. The index buffer is then encoded with
//! the destination format's triangle-termination convention: the last index
//! of every triangle is stored as `-(index + 1)`.

use vstd::prelude::*;
use crate::scene::Primitive;

verus! {

/// A `u32` buffer read as mathematical integers.
pub open spec fn u32s_as_ints(s: Seq<u32>) -> Seq<int> {
    Seq::new(s.len(), |k: int| s[k] as int)
}

/// An `i32` buffer read as mathematical integers.
pub open spec fn i32s_as_ints(s: Seq<i32>) -> Seq<int> {
    Seq::new(s.len(), |k: int| s[k] as int)
}

/// An index buffer shifted by a vertex offset.
pub open spec fn shifted_indices(s: Seq<u32>, off: nat) -> Seq<int> {
    Seq::new(s.len(), |k: int| s[k] + off)
}

/// Number of vertices a primitive contributes.
pub open spec fn prim_vertex_count(p: Primitive) -> nat {
    p.positions@.len()
}

/// Total vertex count of a primitive sequence.
pub open spec fn total_vertex_count(prims: Seq<Primitive>) -> nat
    decreases prims.len(),
{
    if prims.len() == 0 {
        0
    } else {
        total_vertex_count(prims.drop_last()) + prim_vertex_count(prims.last())
    }
}

/// Total index count of a primitive sequence.
pub open spec fn total_index_count(prims: Seq<Primitive>) -> nat
    decreases prims.len(),
{
    if prims.len() == 0 {
        0
    } else {
        total_index_count(prims.drop_last()) + prims.last().indices@.len()
    }
}

/// One primitive's positions laid out flat: the x, y, z bit patterns of each
/// vertex in order.
pub open spec fn prim_flat_positions(p: Primitive) -> Seq<u64> {
    Seq::new(
        prim_vertex_count(p) * 3,
        |k: int|
            {
                let v = p.positions@[k / 3];
                if k % 3 == 0 {
                    v.x_bits
                } else if k % 3 == 1 {
                    v.y_bits
                } else {
                    v.z_bits
                }
            },
    )
}

/// The concatenated position buffer of a mesh.
pub open spec fn flat_positions(prims: Seq<Primitive>) -> Seq<u64>
    decreases prims.len(),
{
    if prims.len() == 0 {
        Seq::empty()
    } else {
        flat_positions(prims.drop_last()) + prim_flat_positions(prims.last())
    }
}

/// The concatenated index buffer of a mesh, as mathematical integers: each
/// primitive's indices shifted by the vertex count of the primitives before
/// it.
pub open spec fn flat_indices(prims: Seq<Primitive>) -> Seq<int>
    decreases prims.len(),
{
    if prims.len() == 0 {
        Seq::empty()
    } else {
        flat_indices(prims.drop_last()) + shifted_indices(
            prims.last().indices@,
            total_vertex_count(prims.drop_last()),
        )
    }
}

/// The flattened buffers of a primitive sequence stay within machine range:
/// the vertex count fits the offset arithmetic, and every shifted index is at
/// most `index_bound`.
pub open spec fn buffers_within(prims: Seq<Primitive>, index_bound: int) -> bool {
    &&& total_vertex_count(prims) <= u32::MAX
    &&& forall|i: int, j: int|
        0 <= i < prims.len() && 0 <= j < prims[i].indices@.len()
            ==> #[trigger] prims[i].indices@[j] + total_vertex_count(prims.take(i)) <= index_bound
}

/// The flattened position buffer holds three values per vertex.
pub proof fn lemma_flat_positions_len(prims: Seq<Primitive>)
    ensures
        flat_positions(prims).len() == 3 * total_vertex_count(prims),
    decreases prims.len(),
{
    if prims.len() > 0 {
        lemma_flat_positions_len(prims.drop_last());
    }
}

/// The flattened index buffer holds exactly the indices of all primitives.
pub proof fn lemma_flat_indices_len(prims: Seq<Primitive>)
    ensures
        flat_indices(prims).len() == total_index_count(prims),
    decreases prims.len(),
{
    if prims.len() > 0 {
        lemma_flat_indices_len(prims.drop_last());
    }
}

/// Extending a prefix by one primitive extends the flattened buffers by that
/// primitive's contribution.
pub proof fn lemma_flat_prefix_step(prims: Seq<Primitive>, i: int)
    requires
        0 <= i < prims.len(),
    ensures
        total_vertex_count(prims.take(i + 1)) == total_vertex_count(prims.take(i))
            + prim_vertex_count(prims[i]),
        flat_positions(prims.take(i + 1)) == flat_positions(prims.take(i)) + prim_flat_positions(
            prims[i],
        ),
        flat_indices(prims.take(i + 1)) == flat_indices(prims.take(i)) + shifted_indices(
            prims[i].indices@,
            total_vertex_count(prims.take(i)),
        ),
{
    assert(prims.take(i + 1).drop_last() =~= prims.take(i));
    assert(prims.take(i + 1).last() == prims[i]);
}

/// Every entry of the flattened index buffer is non-negative and, where the
/// per-primitive bound holds, at most `index_bound`.
pub proof fn lemma_flat_indices_bound(prims: Seq<Primitive>, index_bound: int)
    requires
        forall|i: int, j: int|
            0 <= i < prims.len() && 0 <= j < prims[i].indices@.len()
                ==> #[trigger] prims[i].indices@[j] + total_vertex_count(prims.take(i))
                    <= index_bound,
    ensures
        forall|k: int|
            0 <= k < flat_indices(prims).len() ==> 0 <= #[trigger] flat_indices(prims)[k]
                <= index_bound,
    decreases prims.len(),
{
    if prims.len() > 0 {
        let prefix = prims.drop_last();
        let last = prims.last();
        let n = prims.len() - 1;
        assert forall|i: int, j: int|
            0 <= i < prefix.len() && 0 <= j < prefix[i].indices@.len() implies #[trigger] prefix[i]
            .indices@[j] + total_vertex_count(prefix.take(i)) <= index_bound by {
            assert(prefix.take(i) =~= prims.take(i));
            assert(prefix[i] == prims[i]);
            assert(prims[i].indices@[j] + total_vertex_count(prims.take(i)) <= index_bound);
        }
        lemma_flat_indices_bound(prefix, index_bound);
        let shifted = shifted_indices(last.indices@, total_vertex_count(prefix));
        assert(flat_indices(prims) == flat_indices(prefix) + shifted);
        assert(prims.take(n) =~= prefix);
        assert forall|k: int|
            0 <= k < flat_indices(prims).len() implies 0 <= #[trigger] flat_indices(prims)[k]
            <= index_bound by {
            if k < flat_indices(prefix).len() {
                assert(flat_indices(prims)[k] == flat_indices(prefix)[k]);
            } else {
                let j = k - flat_indices(prefix).len();
                assert(flat_indices(prims)[k] == shifted[j]);
                assert(shifted[j] == last.indices@[j] + total_vertex_count(prefix));
                assert(prims[n].indices@[j] + total_vertex_count(prims.take(n)) <= index_bound);
            }
        }
    }
}

/// The vertex count of a prefix never exceeds the total vertex count.
pub proof fn lemma_vertex_prefix_monotone(prims: Seq<Primitive>, i: int)
    requires
        0 <= i <= prims.len(),
    ensures
        total_vertex_count(prims.take(i)) <= total_vertex_count(prims),
    decreases prims.len() - i,
{
    if i < prims.len() {
        lemma_flat_prefix_step(prims, i);
        lemma_vertex_prefix_monotone(prims, i + 1);
    } else {
        assert(prims.take(i) =~= prims);
    }
}

proof fn lemma_triple_mod(j: int)
    requires
        0 <= j,
    ensures
        (3 * j) % 3 == 0,
        (3 * j) / 3 == j,
        (3 * j + 1) % 3 == 1,
        (3 * j + 1) / 3 == j,
        (3 * j + 2) % 3 == 2,
        (3 * j + 2) / 3 == j,
{
}

proof fn lemma_u32s_as_ints_push(s: Seq<u32>, x: u32)
    ensures
        u32s_as_ints(s.push(x)) == u32s_as_ints(s).push(x as int),
{
    assert(u32s_as_ints(s.push(x)) =~= u32s_as_ints(s).push(x as int));
}

proof fn lemma_i32s_as_ints_push(s: Seq<i32>, x: i32)
    ensures
        i32s_as_ints(s.push(x)) == i32s_as_ints(s).push(x as int),
{
    assert(i32s_as_ints(s.push(x)) =~= i32s_as_ints(s).push(x as int));
}

/// The flattened buffers of a mesh.
pub struct FlatMesh {
    pub positions: Vec<u64>,
    pub indices: Vec<u32>,
}

/// Flatten a mesh's primitives into one position buffer and one shifted
/// index buffer.
pub fn flatten_primitives(prims: &Vec<Primitive>) -> (r: FlatMesh)
    requires
        buffers_within(prims@, u32::MAX as int),
    ensures
        r.positions@ == flat_positions(prims@),
        u32s_as_ints(r.indices@) == flat_indices(prims@),
{
    let mut positions: Vec<u64> = Vec::new();
    let mut indices: Vec<u32> = Vec::new();
    let mut vertex_offset: u32 = 0;
    let n = prims.len();
    assert(prims@.take(0) =~= Seq::<Primitive>::empty());
    assert(u32s_as_ints(indices@) =~= flat_indices(prims@.take(0)));
    for i in 0..n
        invariant
            n == prims@.len(),
            buffers_within(prims@, u32::MAX as int),
            vertex_offset == total_vertex_count(prims@.take(i as int)),
            positions@ == flat_positions(prims@.take(i as int)),
            u32s_as_ints(indices@) == flat_indices(prims@.take(i as int)),
    {
        let p = &prims[i];
        proof {
            lemma_flat_prefix_step(prims@, i as int);
        }
        let ghost positions_before = positions@;
        let m = p.positions.len();
        for j in 0..m
            invariant
                m == p.positions@.len(),
                i < prims@.len(),
                *p == prims@[i as int],
                positions@ == positions_before + prim_flat_positions(*p).take(3 * j as int),
                prim_flat_positions(*p).len() == 3 * m,
        {
            let v = &p.positions[j];
            positions.push(v.x_bits);
            positions.push(v.y_bits);
            positions.push(v.z_bits);
            proof {
                let flat = prim_flat_positions(*p);
                lemma_triple_mod(j as int);
                assert(flat[3 * j as int] == v.x_bits);
                assert(flat[3 * j as int + 1] == v.y_bits);
                assert(flat[3 * j as int + 2] == v.z_bits);
                assert(positions@ =~= positions_before + flat.take(3 * (j + 1) as int));
            }
        }
        proof {
            assert(prim_flat_positions(*p).take(3 * m as int) =~= prim_flat_positions(*p));
        }
        let ghost indices_before = indices@;
        let ghost voff = total_vertex_count(prims@.take(i as int));
        let ghost shifted = shifted_indices(p.indices@, voff);
        let q = p.indices.len();
        for j in 0..q
            invariant
                q == p.indices@.len(),
                i < prims@.len(),
                *p == prims@[i as int],
                vertex_offset == voff,
                voff == total_vertex_count(prims@.take(i as int)),
                shifted == shifted_indices(p.indices@, voff),
                buffers_within(prims@, u32::MAX as int),
                u32s_as_ints(indices@) == u32s_as_ints(indices_before) + shifted.take(j as int),
        {
            let idx = p.indices[j];
            proof {
                assert(prims@[i as int].indices@[j as int] + total_vertex_count(
                    prims@.take(i as int),
                ) <= u32::MAX);
            }
            let shifted_idx = idx + vertex_offset;
            let ghost pre = indices@;
            indices.push(shifted_idx);
            proof {
                lemma_u32s_as_ints_push(pre, shifted_idx);
                assert(shifted[j as int] == shifted_idx as int);
                assert(u32s_as_ints(indices@) =~= u32s_as_ints(indices_before) + shifted.take(
                    j + 1 as int,
                ));
            }
        }
        proof {
            assert(shifted.take(q as int) =~= shifted);
        }
        let added = p.positions.len();
        proof {
            lemma_vertex_prefix_monotone(prims@, i + 1 as int);
        }
        vertex_offset = vertex_offset + added as u32;
    }
    proof {
        assert(prims@.take(n as int) =~= prims@);
    }
    FlatMesh { positions, indices }
}

/// Triangle-termination encoding of one index buffer entry: the last index
/// of each triangle is stored as `-(index + 1)`, the others unchanged.
pub open spec fn encoded_index_at(v: int, k: int) -> int {
    if k % 3 == 2 {
        -v - 1
    } else {
        v
    }
}

/// Triangle-termination encoding of a whole index buffer.
pub open spec fn encode_indices(s: Seq<int>) -> Seq<int> {
    Seq::new(s.len(), |k: int| encoded_index_at(s[k], k))
}

/// Encode an index buffer with the triangle-termination convention.
pub fn encode_polygon_indices(indices: &Vec<u32>) -> (r: Vec<i32>)
    requires
        forall|k: int| 0 <= k < indices@.len() ==> indices@[k] <= i32::MAX,
    ensures
        i32s_as_ints(r@) == encode_indices(u32s_as_ints(indices@)),
{
    let mut out: Vec<i32> = Vec::new();
    let n = indices.len();
    let ghost ints = u32s_as_ints(indices@);
    assert(i32s_as_ints(out@) =~= encode_indices(ints).take(0));
    for i in 0..n
        invariant
            n == indices@.len(),
            ints == u32s_as_ints(indices@),
            forall|k: int| 0 <= k < indices@.len() ==> indices@[k] <= i32::MAX,
            i32s_as_ints(out@) == encode_indices(ints).take(i as int),
    {
        let idx = indices[i];
        let encoded: i32 = if (i + 1) % 3 == 0 {
            -(idx as i32) - 1
        } else {
            idx as i32
        };
        let ghost pre = out@;
        out.push(encoded);
        proof {
            assert((i as int + 1) % 3 == 0 <==> i as int % 3 == 2);
            lemma_i32s_as_ints_push(pre, encoded);
            assert(encoded as int == encoded_index_at(ints[i as int], i as int));
            assert(i32s_as_ints(out@) =~= encode_indices(ints).take(i + 1 as int));
        }
    }
    proof {
        assert(encode_indices(ints).take(n as int) =~= encode_indices(ints));
    }
    out
}

/// Triangle-termination law: where triangle `k` occupies positions `3k`,
/// `3k + 1` and `3k + 2` of the index buffer, the encoded buffer keeps the
/// first two entries and stores the third as `-(index + 1)`.
pub proof fn lemma_triangle_termination(s: Seq<int>, k: int)
    requires
        0 <= k,
        3 * k + 2 < s.len(),
    ensures
        encode_indices(s)[3 * k] == s[3 * k],
        encode_indices(s)[3 * k + 1] == s[3 * k + 1],
        encode_indices(s)[3 * k + 2] == -s[3 * k + 2] - 1,
{
    lemma_triple_mod(k);
}

/// Flattening law for a mesh of two primitives: the position buffer has
/// three entries per vertex of both primitives, and the second primitive's
/// indices land after the first's, shifted by exactly the first primitive's
/// vertex count.
pub proof fn lemma_two_primitive_flatten(p1: Primitive, p2: Primitive)
    ensures
        flat_positions(seq![p1, p2]).len() == 3 * (prim_vertex_count(p1) + prim_vertex_count(p2)),
        flat_indices(seq![p1, p2]).len() == p1.indices@.len() + p2.indices@.len(),
        forall|j: int|
            0 <= j < p2.indices@.len() ==> flat_indices(seq![p1, p2])[p1.indices@.len() + j]
                == #[trigger] p2.indices@[j] + prim_vertex_count(p1),
{
    let both = seq![p1, p2];
    assert(both.drop_last() =~= seq![p1]);
    assert(both.last() == p2);
    assert(seq![p1].drop_last() =~= Seq::<Primitive>::empty());
    assert(seq![p1].last() == p1);
    assert(total_vertex_count(Seq::<Primitive>::empty()) == 0);
    assert(flat_indices(Seq::<Primitive>::empty()) == Seq::<int>::empty());
    lemma_flat_positions_len(both);
    lemma_flat_indices_len(both);
    assert(total_vertex_count(seq![p1]) == prim_vertex_count(p1));
    assert(flat_indices(seq![p1]) == flat_indices(Seq::<Primitive>::empty()) + shifted_indices(
        p1.indices@,
        0,
    ));
    assert(flat_indices(seq![p1]).len() == p1.indices@.len());
    assert forall|j: int| 0 <= j < p2.indices@.len() implies flat_indices(both)[p1.indices@.len()
        + j] == #[trigger] p2.indices@[j] + prim_vertex_count(p1) by {
        assert(flat_indices(both) == flat_indices(seq![p1]) + shifted_indices(
            p2.indices@,
            prim_vertex_count(p1),
        ));
        assert(flat_indices(both)[p1.indices@.len() + j] == shifted_indices(
            p2.indices@,
            prim_vertex_count(p1),
        )[j]);
    }
}

} // verus!
