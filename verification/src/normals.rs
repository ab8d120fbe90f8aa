//! Vertex normals for a triangle mesh that comes without them.
//!
//! Every triangle adds its unnormalised face normal, whose length is twice the
//! triangle's area, to each of its three corners; the sum at each vertex is
//! then scaled to length one. A vertex that no triangle refers to keeps the
//! zero vector.

use vstd::prelude::*;
use crate::vector::{
    add_words, canonical, cross, cross_words, is_finite, lemma_only_zero_is_zero,
    lemma_zero_is_canonical, minus, normalize_or_zero, normalize_words, plus, sub_words,
    vec3_numbers, vec3_words, words_of, zero, zero_words, Words3,
};

verus! {

/// The number of whole triangles in an index list; up to two indices that
/// follow the last whole triangle belong to none.
pub open spec fn triangle_count(indices: Seq<u32>) -> int {
    indices.len() as int / 3
}

/// Every index of a whole triangle refers to one of `count` vertices.
pub open spec fn triangles_in_range(indices: Seq<u32>, count: nat) -> bool {
    forall|k: int| 0 <= k < 3 * triangle_count(indices) ==> (#[trigger] indices[k]) < count
}

/// The unnormalised normal of triangle `t`: the cross product of its edges
/// from the first corner to the second and from the first to the third.
pub open spec fn face_normal(positions: Seq<Words3>, indices: Seq<u32>, t: int) -> Words3 {
    let a = canonical(positions[indices[3 * t] as int]);
    let b = canonical(positions[indices[3 * t + 1] as int]);
    let c = canonical(positions[indices[3 * t + 2] as int]);
    cross_words(sub_words(b, a), sub_words(c, a))
}

/// The face normals that the first `corners` entries of the index list add to
/// vertex `v`, in the order of the list. A triangle that names `v` in two
/// corners adds its normal twice.
pub open spec fn contributions(
    positions: Seq<Words3>,
    indices: Seq<u32>,
    v: int,
    corners: int,
) -> Seq<Words3>
    decreases corners,
{
    if corners <= 0 {
        Seq::empty()
    } else {
        let before = contributions(positions, indices, v, corners - 1);
        if indices[corners - 1] == v {
            before.push(face_normal(positions, indices, (corners - 1) / 3))
        } else {
            before
        }
    }
}

/// The sum of a sequence of vectors, added one by one from the left to the
/// zero vector.
pub open spec fn sum_words(vs: Seq<Words3>) -> Words3
    decreases vs.len(),
{
    if vs.len() == 0 {
        zero_words()
    } else {
        add_words(sum_words(vs.drop_last()), vs.last())
    }
}

/// The sum of the face normals of all triangles at vertex `v`, as numbers.
pub open spec fn accumulated(positions: Seq<Words3>, indices: Seq<u32>, v: int) -> Words3 {
    sum_words(contributions(positions, indices, v, 3 * triangle_count(indices)))
}

/// The normal of vertex `v`: the accumulated face normals, scaled to length
/// one.
pub open spec fn synthesized(positions: Seq<Words3>, indices: Seq<u32>, v: int) -> Words3 {
    normalize_words(accumulated(positions, indices, v))
}

/// No corner of a whole triangle names vertex `v`.
pub open spec fn unreferenced(indices: Seq<u32>, v: int) -> bool {
    forall|k: int| 0 <= k < 3 * triangle_count(indices) ==> (#[trigger] indices[k]) != v
}

/// One more corner either leaves the sum at `v` as it is or adds the normal of
/// the corner's triangle to it.
proof fn lemma_sum_next_corner(positions: Seq<Words3>, indices: Seq<u32>, v: int, corner: int)
    requires
        0 <= corner,
    ensures
        sum_words(contributions(positions, indices, v, corner + 1)) == if indices[corner] == v {
            add_words(
                sum_words(contributions(positions, indices, v, corner)),
                face_normal(positions, indices, corner / 3),
            )
        } else {
            sum_words(contributions(positions, indices, v, corner))
        },
{
    let before = contributions(positions, indices, v, corner);
    if indices[corner] == v {
        let f = face_normal(positions, indices, corner / 3);
        assert(before.push(f).drop_last() =~= before);
    }
}

/// A vertex that no corner names receives no contribution.
proof fn lemma_unreferenced_contributions(
    positions: Seq<Words3>,
    indices: Seq<u32>,
    v: int,
    corners: int,
)
    requires
        corners <= 3 * triangle_count(indices),
        unreferenced(indices, v),
    ensures
        contributions(positions, indices, v, corners) =~= Seq::<Words3>::empty(),
    decreases corners,
{
    if corners > 0 {
        lemma_unreferenced_contributions(positions, indices, v, corners - 1);
        assert(indices[corners - 1] != v);
    }
}

/// The positions with every NaN taken for one give the same contributions
/// to a vertex: a face normal reads the numbers of its corners only.
pub proof fn lemma_contributions_read_numbers(
    positions: Seq<Words3>,
    indices: Seq<u32>,
    v: int,
    corners: int,
)
    requires
        triangles_in_range(indices, positions.len()),
        corners <= 3 * triangle_count(indices),
    ensures
        contributions(positions.map_values(|w: Words3| canonical(w)), indices, v, corners)
            == contributions(positions, indices, v, corners),
    decreases corners,
{
    if corners > 0 {
        lemma_contributions_read_numbers(positions, indices, v, corners - 1);
        let t = (corners - 1) / 3;
        let numbers = positions.map_values(|w: Words3| canonical(w));
        assert(0 <= 3 * t && 3 * t + 2 < 3 * triangle_count(indices));
        assert(indices[3 * t] < positions.len());
        assert(indices[3 * t + 1] < positions.len());
        assert(indices[3 * t + 2] < positions.len());
        assert(face_normal(numbers, indices, t) == face_normal(positions, indices, t));
    }
}

/// Adds `face` to the accumulator of the vertex that corner `corner` names.
fn add_at_corner(
    normals: &mut Vec<glam::Vec3>,
    indices: &[u32],
    corner: usize,
    face: glam::Vec3,
    Ghost(positions): Ghost<Seq<Words3>>,
)
    requires
        corner < indices.len(),
        indices[corner as int] < old(normals).len(),
        vec3_numbers(face) == face_normal(positions, indices@, corner as int / 3),
        forall|v: int|
            0 <= v < old(normals).len() ==> vec3_numbers(#[trigger] old(normals)[v])
                == sum_words(contributions(positions, indices@, v, corner as int)),
    ensures
        final(normals).len() == old(normals).len(),
        forall|v: int|
            0 <= v < final(normals).len() ==> vec3_numbers(#[trigger] final(normals)[v])
                == sum_words(contributions(positions, indices@, v, corner + 1)),
{
    let i = indices[corner] as usize;
    let s = plus(normals[i], face);
    normals.set(i, s);
    proof {
        assert forall|v: int| 0 <= v < normals.len() implies vec3_numbers(#[trigger] normals[v])
            == sum_words(contributions(positions, indices@, v, corner + 1)) by {
            lemma_sum_next_corner(positions, indices@, v, corner as int);
        }
    }
}

/// Synthesizes one normal per vertex from the positions and the triangle
/// list.
///
/// Indices that follow the last whole triangle are not read. A vertex at
/// which the face normals add up to the zero vector, as at one that no
/// triangle names, gets the zero vector.
pub fn compute_normals(positions: &[glam::Vec3], indices: &[u32]) -> (normals: Vec<glam::Vec3>)
    requires
        triangles_in_range(indices@, positions.len() as nat),
    ensures
        normals.len() == positions.len(),
        forall|v: int|
            0 <= v < normals.len() ==> vec3_words(#[trigger] normals[v]) == synthesized(
                words_of(positions@),
                indices@,
                v,
            ),
        forall|v: int|
            0 <= v < normals.len() && accumulated(words_of(positions@), indices@, v)
                == zero_words() ==> vec3_words(#[trigger] normals[v]) == zero_words(),
        forall|v: int|
            0 <= v < normals.len() && unreferenced(indices@, v) ==> vec3_words(
                #[trigger] normals[v],
            ) == zero_words(),
        forall|v: int| 0 <= v < normals.len() ==> is_finite(vec3_words(#[trigger] normals[v])),
{
    let count = positions.len();
    let ghost p = words_of(positions@);
    let mut normals: Vec<glam::Vec3> = Vec::new();
    while normals.len() < count
        invariant
            normals.len() <= count,
            forall|v: int| 0 <= v < normals.len() ==> vec3_numbers(#[trigger] normals[v])
                == zero_words(),
        decreases count - normals.len(),
    {
        proof {
            lemma_zero_is_canonical();
        }
        normals.push(zero());
    }
    let triangles = indices.len() / 3;
    let mut t: usize = 0;
    while t < triangles
        invariant
            t <= triangles,
            triangles == indices.len() / 3,
            count == positions.len(),
            normals.len() == count,
            p == words_of(positions@),
            triangles_in_range(indices@, count as nat),
            forall|v: int|
                0 <= v < count ==> vec3_numbers(#[trigger] normals[v]) == sum_words(
                    contributions(p, indices@, v, 3 * t),
                ),
        decreases triangles - t,
    {
        let i0 = indices[3 * t] as usize;
        let i1 = indices[3 * t + 1] as usize;
        let i2 = indices[3 * t + 2] as usize;
        let edge1 = minus(positions[i1], positions[i0]);
        let edge2 = minus(positions[i2], positions[i0]);
        let face = cross(edge1, edge2);
        assert(vec3_numbers(face) == face_normal(p, indices@, t as int));
        assert((3 * t) / 3 == t && (3 * t + 1) / 3 == t && (3 * t + 2) / 3 == t);
        add_at_corner(&mut normals, indices, 3 * t, face, Ghost(p));
        add_at_corner(&mut normals, indices, 3 * t + 1, face, Ghost(p));
        add_at_corner(&mut normals, indices, 3 * t + 2, face, Ghost(p));
        t = t + 1;
    }
    let mut i: usize = 0;
    while i < count
        invariant
            i <= count,
            normals.len() == count,
            triangles == triangle_count(indices@),
            forall|v: int|
                0 <= v < i ==> vec3_words(#[trigger] normals[v]) == synthesized(p, indices@, v),
            forall|v: int|
                0 <= v < i && accumulated(p, indices@, v) == zero_words() ==> vec3_words(
                    #[trigger] normals[v],
                ) == zero_words(),
            forall|v: int| 0 <= v < i ==> is_finite(vec3_words(#[trigger] normals[v])),
            forall|v: int|
                i <= v < count ==> vec3_numbers(#[trigger] normals[v]) == accumulated(
                    p,
                    indices@,
                    v,
                ),
        decreases count - i,
    {
        proof {
            if accumulated(p, indices@, i as int) == zero_words() {
                lemma_only_zero_is_zero(vec3_words(normals[i as int]));
            }
        }
        let unit = normalize_or_zero(normals[i]);
        normals.set(i, unit);
        i = i + 1;
    }
    proof {
        assert forall|v: int| 0 <= v < count && unreferenced(indices@, v) implies accumulated(
            p,
            indices@,
            v,
        ) == zero_words() by {
            lemma_unreferenced_contributions(p, indices@, v, 3 * triangle_count(indices@));
        }
    }
    normals
}

/// The face normals that triangle `t` alone adds to vertex `v`: its normal,
/// once for each corner that names `v`.
pub open spec fn triangle_contributions(
    positions: Seq<Words3>,
    indices: Seq<u32>,
    v: int,
    t: int,
) -> Seq<Words3> {
    let f = face_normal(positions, indices, t);
    let first: Seq<Words3> = if indices[3 * t] == v {
        seq![f]
    } else {
        Seq::empty()
    };
    let second: Seq<Words3> = if indices[3 * t + 1] == v {
        first.push(f)
    } else {
        first
    };
    if indices[3 * t + 2] == v {
        second.push(f)
    } else {
        second
    }
}

/// Some corner of triangle `t` names vertex `v`.
pub open spec fn has_corner(indices: Seq<u32>, t: int, v: int) -> bool {
    indices[3 * t] == v || indices[3 * t + 1] == v || indices[3 * t + 2] == v
}

/// Triangles `s` and `t` have no vertex in common.
pub open spec fn share_no_vertex(indices: Seq<u32>, s: int, t: int) -> bool {
    &&& !has_corner(indices, s, indices[3 * t] as int)
    &&& !has_corner(indices, s, indices[3 * t + 1] as int)
    &&& !has_corner(indices, s, indices[3 * t + 2] as int)
}

/// The corners of triangle `t` extend the contributions of the triangles
/// before it by what `t` alone contributes.
proof fn lemma_contributions_by_triangle(
    positions: Seq<Words3>,
    indices: Seq<u32>,
    v: int,
    t: int,
)
    requires
        0 <= t,
    ensures
        contributions(positions, indices, v, 3 * (t + 1)) =~= contributions(
            positions,
            indices,
            v,
            3 * t,
        ) + triangle_contributions(positions, indices, v, t),
{
    assert((3 * t) / 3 == t && (3 * t + 1) / 3 == t && (3 * t + 2) / 3 == t);
    let c0 = contributions(positions, indices, v, 3 * t);
    let c1 = contributions(positions, indices, v, 3 * t + 1);
    let c2 = contributions(positions, indices, v, 3 * t + 2);
    let c3 = contributions(positions, indices, v, 3 * t + 3);
    let f = face_normal(positions, indices, t);
    assert(c1 == if indices[3 * t] == v {
        c0.push(f)
    } else {
        c0
    });
    assert(c2 == if indices[3 * t + 1] == v {
        c1.push(f)
    } else {
        c1
    });
    assert(c3 == if indices[3 * t + 2] == v {
        c2.push(f)
    } else {
        c2
    });
}

/// Triangle `s` of the first index list and triangle `t` of the second name
/// the same three vertices in the same order.
pub open spec fn same_triangle(first: Seq<u32>, s: int, second: Seq<u32>, t: int) -> bool {
    &&& first[3 * s] == second[3 * t]
    &&& first[3 * s + 1] == second[3 * t + 1]
    &&& first[3 * s + 2] == second[3 * t + 2]
}

/// Triangle `i` stands at some place of the list.
pub open spec fn occurs(places: Seq<int>, i: int) -> bool {
    exists|j: int| 0 <= j < places.len() && #[trigger] places[j] == i
}

/// The second index list holds the triangles of the first in another order:
/// triangle `j` of the second is triangle `places[j]` of the first, and every
/// triangle of the first stands at exactly one place.
pub open spec fn reordered(first: Seq<u32>, second: Seq<u32>, places: Seq<int>) -> bool {
    let n = triangle_count(first);
    &&& triangle_count(second) == n
    &&& places.len() == n
    &&& forall|j: int| 0 <= j < n ==> 0 <= #[trigger] places[j] < n
    &&& forall|i: int, j: int| 0 <= i < j < n ==> #[trigger] places[i] != #[trigger] places[j]
    &&& forall|i: int| 0 <= i < n ==> #[trigger] occurs(places, i)
    &&& forall|j: int| 0 <= j < n ==> same_triangle(second, j, first, #[trigger] places[j])
}

/// Two triangles with a common vertex stand in the second index list in the
/// order in which they stood in the first.
pub open spec fn keeps_order_at_vertices(second: Seq<u32>, places: Seq<int>) -> bool {
    forall|i: int, j: int|
        0 <= i < j < places.len() && !share_no_vertex(second, i, j) ==> #[trigger] places[i]
            < #[trigger] places[j]
}

/// The contributions to vertex `v` of those of the first `k` triangles that
/// are chosen.
spec fn chosen_contributions(
    positions: Seq<Words3>,
    indices: Seq<u32>,
    v: int,
    chosen: Set<int>,
    k: int,
) -> Seq<Words3>
    decreases k,
{
    if k <= 0 {
        Seq::empty()
    } else {
        let before = chosen_contributions(positions, indices, v, chosen, k - 1);
        if chosen.contains(k - 1) {
            before + triangle_contributions(positions, indices, v, k - 1)
        } else {
            before
        }
    }
}

/// Where all of the first `k` triangles are chosen, they contribute what the
/// index list contributes up to there.
proof fn lemma_all_chosen(
    positions: Seq<Words3>,
    indices: Seq<u32>,
    v: int,
    chosen: Set<int>,
    k: int,
)
    requires
        forall|t: int| 0 <= t < k ==> chosen.contains(t),
    ensures
        chosen_contributions(positions, indices, v, chosen, k) == contributions(
            positions,
            indices,
            v,
            3 * k,
        ),
    decreases k,
{
    if k > 0 {
        lemma_all_chosen(positions, indices, v, chosen, k - 1);
        lemma_contributions_by_triangle(positions, indices, v, k - 1);
        assert(chosen.contains(k - 1));
    }
}

/// A triangle without a corner at `v` can be chosen or not: the contributions
/// to `v` are the same.
proof fn lemma_choose_bystander(
    positions: Seq<Words3>,
    indices: Seq<u32>,
    v: int,
    chosen: Set<int>,
    i: int,
    k: int,
)
    requires
        !has_corner(indices, i, v),
    ensures
        chosen_contributions(positions, indices, v, chosen.insert(i), k) == chosen_contributions(
            positions,
            indices,
            v,
            chosen,
            k,
        ),
    decreases k,
{
    if k > 0 {
        lemma_choose_bystander(positions, indices, v, chosen, i, k - 1);
        if k - 1 == i {
            assert(triangle_contributions(positions, indices, v, i) =~= Seq::<Words3>::empty());
        }
    }
}

/// Choosing one more triangle, behind which no chosen triangle has a corner
/// at `v`, puts its contributions behind those of the others.
proof fn lemma_choose_last(
    positions: Seq<Words3>,
    indices: Seq<u32>,
    v: int,
    chosen: Set<int>,
    i: int,
    k: int,
)
    requires
        0 <= i < k,
        !chosen.contains(i),
        forall|t: int| i < t && chosen.contains(t) ==> !has_corner(indices, t, v),
    ensures
        chosen_contributions(positions, indices, v, chosen.insert(i), k) == chosen_contributions(
            positions,
            indices,
            v,
            chosen,
            k,
        ) + triangle_contributions(positions, indices, v, i),
    decreases k,
{
    let with = chosen.insert(i);
    if k - 1 == i {
        lemma_choose_below(positions, indices, v, chosen, i, i);
        assert(with.contains(i));
    } else {
        lemma_choose_last(positions, indices, v, chosen, i, k - 1);
        if chosen.contains(k - 1) {
            assert(with.contains(k - 1));
            assert(triangle_contributions(positions, indices, v, k - 1) =~= Seq::<
                Words3,
            >::empty());
            let before = chosen_contributions(positions, indices, v, chosen, k - 1);
            assert(before + Seq::<Words3>::empty() =~= before);
            let grown = chosen_contributions(positions, indices, v, with, k - 1);
            assert(grown + Seq::<Words3>::empty() =~= grown);
        } else {
            assert(!with.contains(k - 1));
        }
    }
}

/// Whether a triangle is chosen makes no difference to the contributions of
/// the triangles before it.
proof fn lemma_choose_below(
    positions: Seq<Words3>,
    indices: Seq<u32>,
    v: int,
    chosen: Set<int>,
    i: int,
    k: int,
)
    requires
        k <= i,
    ensures
        chosen_contributions(positions, indices, v, chosen.insert(i), k) == chosen_contributions(
            positions,
            indices,
            v,
            chosen,
            k,
        ),
    decreases k,
{
    if k > 0 {
        lemma_choose_below(positions, indices, v, chosen, i, k - 1);
        assert(chosen.insert(i).contains(k - 1) == chosen.contains(k - 1));
    }
}

/// The triangles of the first index list that stand at the first `m` places
/// of the second.
spec fn placed(places: Seq<int>, m: int) -> Set<int> {
    Set::new(|i: int| exists|j: int| 0 <= j < m && #[trigger] places[j] == i)
}

/// The first `m` triangles of the reordered list contribute to `v` what the
/// triangles that stand there contribute in the first list.
proof fn lemma_reordered_prefix(
    positions: Seq<Words3>,
    first: Seq<u32>,
    second: Seq<u32>,
    places: Seq<int>,
    v: int,
    m: int,
)
    requires
        reordered(first, second, places),
        keeps_order_at_vertices(second, places),
        0 <= m <= triangle_count(first),
    ensures
        contributions(positions, second, v, 3 * m) == chosen_contributions(
            positions,
            first,
            v,
            placed(places, m),
            triangle_count(first),
        ),
    decreases m,
{
    let n = triangle_count(first);
    if m == 0 {
        lemma_none_chosen(positions, first, v, placed(places, 0), n);
    } else {
        let j = m - 1;
        let i = places[j];
        lemma_reordered_prefix(positions, first, second, places, v, j);
        lemma_contributions_by_triangle(positions, second, v, j);
        assert(same_triangle(second, j, first, i));
        assert(triangle_contributions(positions, second, v, j) == triangle_contributions(
            positions,
            first,
            v,
            i,
        ));
        let earlier = placed(places, j);
        assert(placed(places, m) =~= earlier.insert(i)) by {
            assert forall|t: int| placed(places, m).contains(t) implies earlier.insert(i).contains(
                t,
            ) by {
                let w = choose|w: int| 0 <= w < m && #[trigger] places[w] == t;
                if w < j {
                    assert(earlier.contains(t));
                }
            }
            assert forall|t: int| earlier.insert(i).contains(t) implies placed(places, m).contains(
                t,
            ) by {
                if t == i {
                    assert(places[j] == i);
                } else {
                    let w = choose|w: int| 0 <= w < j && #[trigger] places[w] == t;
                    assert(places[w] == t);
                }
            }
        }
        if has_corner(first, i, v) {
            assert(!earlier.contains(i)) by {
                if earlier.contains(i) {
                    let w = choose|w: int| 0 <= w < j && #[trigger] places[w] == i;
                    assert(places[w] != places[j]);
                }
            }
            assert forall|t: int| i < t && earlier.contains(t) implies !has_corner(
                first,
                t,
                v,
            ) by {
                let w = choose|w: int| 0 <= w < j && #[trigger] places[w] == t;
                assert(same_triangle(second, w, first, places[w]));
                if has_corner(first, t, v) {
                    assert(has_corner(second, w, v));
                    assert(has_corner(second, j, v));
                    assert(!share_no_vertex(second, w, j));
                    assert(places[w] < places[j]);
                }
            }
            lemma_choose_last(positions, first, v, earlier, i, n);
        } else {
            lemma_choose_bystander(positions, first, v, earlier, i, n);
            let before = contributions(positions, second, v, 3 * j);
            assert(triangle_contributions(positions, first, v, i) =~= Seq::<Words3>::empty());
            assert(before + Seq::<Words3>::empty() =~= before);
        }
    }
}

/// Where none of the first `k` triangles is chosen, nothing is contributed.
proof fn lemma_none_chosen(
    positions: Seq<Words3>,
    indices: Seq<u32>,
    v: int,
    chosen: Set<int>,
    k: int,
)
    requires
        forall|t: int| 0 <= t < k ==> !chosen.contains(t),
    ensures
        chosen_contributions(positions, indices, v, chosen, k) == Seq::<Words3>::empty(),
    decreases k,
{
    if k > 0 {
        lemma_none_chosen(positions, indices, v, chosen, k - 1);
        assert(!chosen.contains(k - 1));
    }
}

/// Reordering the triangle list changes no normal, as long as every two
/// triangles with a common vertex keep their order: each vertex then
/// receives the same face normals in the same order.
///
/// The sums are taken in floating point, where the order of the terms at one
/// vertex matters; a reordering that exchanges two triangles at a common
/// vertex is therefore left out.
pub proof fn law_reordering_keeps_normals(
    positions: Seq<Words3>,
    first: Seq<u32>,
    second: Seq<u32>,
    places: Seq<int>,
    v: int,
)
    requires
        reordered(first, second, places),
        keeps_order_at_vertices(second, places),
    ensures
        synthesized(positions, second, v) == synthesized(positions, first, v),
{
    let n = triangle_count(first);
    lemma_reordered_prefix(positions, first, second, places, v, n);
    assert forall|t: int| 0 <= t < n implies placed(places, n).contains(t) by {
        assert(occurs(places, t));
        let j = choose|j: int| 0 <= j < places.len() && #[trigger] places[j] == t;
        assert(places[j] == t);
    }
    lemma_all_chosen(positions, first, v, placed(places, n), n);
}

} // verus!
