//! The mesh that is handed to the graphics device: one flat vertex array and
//! one triangle index list, put together from the sub-meshes of a model file.
//!
//! A vertex takes six consecutive words of the vertex array: the three
//! components of its position, then the three components of its normal, each
//! as the bit pattern of a 32-bit float. An index names a vertex by its place
//! in the whole array, so the indices of a sub-mesh are raised by the number
//! of vertices that came before it.

use vstd::prelude::*;
use crate::normals::{
    compute_normals, lemma_contributions_read_numbers, synthesized, triangle_count,
    triangles_in_range,
};
use crate::vector::{canonical, canonical_word, vec3_words, words, words_of, Words3};

verus! {

/// Every index refers to one of `count` vertices.
pub open spec fn indices_in_range(indices: Seq<u32>, count: nat) -> bool {
    forall|k: int| 0 <= k < indices.len() ==> (#[trigger] indices[k]) < count
}

/// Why a model could not be turned into a mesh.
#[derive(Debug, Clone, Copy, PartialEq)]
pub enum GeometryLoadError {
    /// The parser rejected the source.
    Parse(tobj::LoadError),
    /// A face of the source refers to a texture coordinate or a normal by
    /// a number of `REFERENCE_LIMIT` or more, or to one that lies more than
    /// one before the first.
    UnsupportedReference,
    /// A line of the material library names a colour and gives fewer than
    /// three values for it.
    IncompleteColour,
    /// The index list of a sub-mesh does not end with a whole triangle.
    PartialTriangle,
    /// An index of a sub-mesh names no vertex of that sub-mesh.
    IndexOutOfRange,
    /// A sub-mesh has normals, but fewer than vertices.
    PartialNormals,
    /// The mesh would have more than `u32::MAX` vertices.
    TooManyVertices,
}

/// One sub-mesh of a model: a position per vertex, a normal per vertex or no
/// normals at all, and three indices per triangle.
pub struct SubMesh {
    pub positions: Vec<glam::Vec3>,
    pub normals: Vec<glam::Vec3>,
    pub indices: Vec<u32>,
}

/// What a sub-mesh holds, with every vector given by its components.
pub struct SubMeshData {
    pub positions: Seq<Words3>,
    pub normals: Seq<Words3>,
    pub indices: Seq<u32>,
}

impl View for SubMesh {
    type V = SubMeshData;

    open spec fn view(&self) -> SubMeshData {
        SubMeshData {
            positions: words_of(self.positions@),
            normals: words_of(self.normals@),
            indices: self.indices@,
        }
    }
}

/// The views of a sequence of sub-meshes.
pub open spec fn views_of(models: Seq<SubMesh>) -> Seq<SubMeshData> {
    models.map_values(|m: SubMesh| m@)
}

/// A sub-mesh with every NaN of its positions and normals taken for one.
pub open spec fn canonical_submesh(sub: SubMeshData) -> SubMeshData {
    SubMeshData {
        positions: sub.positions.map_values(|w: Words3| canonical(w)),
        normals: sub.normals.map_values(|w: Words3| canonical(w)),
        indices: sub.indices,
    }
}

/// The sub-meshes of a list, each with every NaN taken for one.
pub open spec fn canonical_models(models: Seq<SubMeshData>) -> Seq<SubMeshData> {
    models.map_values(|m: SubMeshData| canonical_submesh(m))
}

/// What a mesh holds.
pub struct MeshData {
    pub vertices: Seq<u32>,
    pub indices: Seq<u32>,
}

impl MeshData {
    /// The mesh without vertices and triangles.
    pub open spec fn empty() -> MeshData {
        MeshData { vertices: Seq::empty(), indices: Seq::empty() }
    }

    pub open spec fn vertex_count(self) -> int {
        self.vertices.len() as int / 6
    }

    /// Six words per vertex, at most `u32::MAX` vertices, three indices per
    /// triangle, and every index names a vertex.
    pub open spec fn well_formed(self) -> bool {
        &&& self.vertices.len() == 6 * self.vertex_count()
        &&& self.vertex_count() <= u32::MAX
        &&& self.indices.len() % 3 == 0
        &&& indices_in_range(self.indices, self.vertex_count() as nat)
    }
}

/// Component `axis` of a vector: 0 for `x`, 1 for `y`, anything else for `z`.
pub open spec fn component(w: Words3, axis: int) -> u32 {
    if axis == 0 {
        w.0
    } else if axis == 1 {
        w.1
    } else {
        w.2
    }
}

/// The flat vertex array of a list of positions and their normals: for each
/// vertex its position, then its normal.
pub open spec fn interleaved(positions: Seq<Words3>, normals: Seq<Words3>) -> Seq<u32> {
    Seq::new(
        6 * positions.len(),
        |k: int|
            component(
                if k % 6 < 3 {
                    positions[k / 6]
                } else {
                    normals[k / 6]
                },
                k % 3,
            ),
    )
}

/// The indices of a sub-mesh, each raised by the number of vertices before
/// the sub-mesh.
pub open spec fn shifted(indices: Seq<u32>, offset: int) -> Seq<u32> {
    Seq::new(indices.len(), |k: int| (indices[k] + offset) as u32)
}

/// The normals that a sub-mesh brings for its vertices or, where it brings
/// none, the normals synthesized from its triangles.
pub open spec fn normals_of(sub: SubMeshData) -> Seq<Words3> {
    if sub.normals.len() == 0 {
        Seq::new(sub.positions.len(), |v: int| synthesized(sub.positions, sub.indices, v))
    } else {
        sub.normals.take(sub.positions.len() as int)
    }
}

/// What is wrong with a sub-mesh, if anything.
pub open spec fn submesh_error(sub: SubMeshData) -> Option<GeometryLoadError> {
    if sub.indices.len() % 3 != 0 {
        Some(GeometryLoadError::PartialTriangle)
    } else if !indices_in_range(sub.indices, sub.positions.len()) {
        Some(GeometryLoadError::IndexOutOfRange)
    } else if 0 < sub.normals.len() < sub.positions.len() {
        Some(GeometryLoadError::PartialNormals)
    } else {
        None
    }
}

/// The mesh with one more sub-mesh at its end.
pub open spec fn appended(mesh: MeshData, sub: SubMeshData) -> Result<MeshData, GeometryLoadError> {
    match submesh_error(sub) {
        Some(e) => Err(e),
        None => if mesh.vertex_count() + sub.positions.len() > u32::MAX {
            Err(GeometryLoadError::TooManyVertices)
        } else {
            Ok(
                MeshData {
                    vertices: mesh.vertices + interleaved(sub.positions, normals_of(sub)),
                    indices: mesh.indices + shifted(sub.indices, mesh.vertex_count()),
                },
            )
        },
    }
}

/// The mesh of a list of sub-meshes, taken in order, or the error of the first
/// sub-mesh that cannot be appended.
pub open spec fn assembled(models: Seq<SubMeshData>) -> Result<MeshData, GeometryLoadError>
    decreases models.len(),
{
    if models.len() == 0 {
        Ok(MeshData::empty())
    } else {
        match assembled(models.drop_last()) {
            Err(e) => Err(e),
            Ok(mesh) => appended(mesh, models.last()),
        }
    }
}

/// Appending a sub-mesh keeps a mesh well formed: the vertex array still has
/// six words for each vertex, the index list still ends with a whole
/// triangle, and every index, old or new, names a vertex of the whole mesh.
pub proof fn law_appended_is_well_formed(mesh: MeshData, sub: SubMeshData)
    requires
        mesh.well_formed(),
        appended(mesh, sub) is Ok,
    ensures
        appended(mesh, sub)->Ok_0.well_formed(),
        appended(mesh, sub)->Ok_0.vertex_count() == mesh.vertex_count() + sub.positions.len(),
        appended(mesh, sub)->Ok_0.vertices.len() == 6 * (mesh.vertex_count()
            + sub.positions.len()),
{
    let new = appended(mesh, sub)->Ok_0;
    let old_count = mesh.vertex_count();
    let added = sub.positions.len() as int;
    assert(submesh_error(sub) is None);
    assert(new.vertices.len() == 6 * (old_count + added));
    assert(new.vertex_count() == old_count + added);
    assert(new.indices.len() == mesh.indices.len() + sub.indices.len());
    assert forall|k: int| 0 <= k < new.indices.len() implies (#[trigger] new.indices[k])
        < new.vertex_count() by {
        if k < mesh.indices.len() {
            assert(new.indices[k] == mesh.indices[k]);
        } else {
            let j = k - mesh.indices.len();
            assert(new.indices[k] == shifted(sub.indices, old_count)[j]);
            assert(sub.indices[j] < added);
        }
    }
}

/// The number of vertices of all sub-meshes of a list.
pub open spec fn total_vertices(models: Seq<SubMeshData>) -> int
    decreases models.len(),
{
    if models.len() == 0 {
        0
    } else {
        total_vertices(models.drop_last()) + models.last().positions.len()
    }
}

/// A mesh that was put together from sub-meshes is well formed, and its
/// vertex array has six words for each vertex of each sub-mesh.
pub proof fn law_assembled_is_well_formed(models: Seq<SubMeshData>)
    requires
        assembled(models) is Ok,
    ensures
        assembled(models)->Ok_0.well_formed(),
        assembled(models)->Ok_0.vertex_count() == total_vertices(models),
        assembled(models)->Ok_0.vertices.len() == 6 * total_vertices(models),
        assembled(models)->Ok_0.indices.len() % 3 == 0,
    decreases models.len(),
{
    if models.len() > 0 {
        law_assembled_is_well_formed(models.drop_last());
        law_appended_is_well_formed(assembled(models.drop_last())->Ok_0, models.last());
    }
}

/// In the mesh of two sub-meshes, index `k` of the second stands behind all
/// indices of the first, is the index of the sub-mesh raised by the number
/// of vertices of the first, and names a vertex of the whole mesh.
pub proof fn law_second_submesh_is_offset(first: SubMeshData, second: SubMeshData, k: int)
    requires
        assembled(seq![first, second]) is Ok,
        0 <= k < second.indices.len(),
    ensures
        ({
            let mesh = assembled(seq![first, second])->Ok_0;
            &&& mesh.indices.len() == first.indices.len() + second.indices.len()
            &&& mesh.indices[first.indices.len() + k] == second.indices[k] + first.positions.len()
            &&& mesh.indices[first.indices.len() + k] < mesh.vertex_count()
            &&& mesh.vertex_count() == first.positions.len() + second.positions.len()
        }),
{
    let both = seq![first, second];
    let one = seq![first];
    assert(both.drop_last() =~= one);
    assert(one.drop_last() =~= Seq::<SubMeshData>::empty());
    assert(assembled(Seq::<SubMeshData>::empty()) == Ok::<MeshData, GeometryLoadError>(
        MeshData::empty(),
    ));
    assert(assembled(one) == appended(MeshData::empty(), first));
    let head = assembled(one)->Ok_0;
    assert(assembled(both) == appended(head, second));
    law_appended_is_well_formed(MeshData::empty(), first);
    law_appended_is_well_formed(head, second);
    let mesh = assembled(both)->Ok_0;
    assert(head.indices.len() == first.indices.len());
    assert(mesh.indices[first.indices.len() + k] == shifted(second.indices, head.vertex_count())[k]);
    assert(second.indices[k] < second.positions.len());
}

/// The two word lists hold the same numbers: they are equal but for the
/// pattern of a NaN.
pub open spec fn same_numbers(first: Seq<u32>, second: Seq<u32>) -> bool {
    &&& first.len() == second.len()
    &&& forall|k: int|
        0 <= k < first.len() ==> canonical_word(#[trigger] first[k]) == canonical_word(second[k])
}

/// The two meshes have the same indices, and their vertices hold the same
/// numbers.
pub open spec fn same_mesh(first: MeshData, second: MeshData) -> bool {
    first.indices == second.indices && same_numbers(first.vertices, second.vertices)
}

/// The two results are the same error, or meshes that are the same but for
/// the pattern of a NaN.
pub open spec fn same_result(
    first: Result<MeshData, GeometryLoadError>,
    second: Result<MeshData, GeometryLoadError>,
) -> bool {
    match first {
        Ok(mesh) => second is Ok && same_mesh(mesh, second->Ok_0),
        Err(e) => second == Err::<MeshData, GeometryLoadError>(e),
    }
}

/// Appending a sub-mesh with every NaN taken for one gives the same result
/// but for the pattern of a NaN.
pub proof fn law_appended_reads_numbers(first: MeshData, second: MeshData, sub: SubMeshData)
    requires
        same_mesh(first, second),
    ensures
        same_result(appended(first, sub), appended(second, canonical_submesh(sub))),
{
    let numbers = canonical_submesh(sub);
    assert(submesh_error(numbers) == submesh_error(sub));
    assert(first.vertex_count() == second.vertex_count());
    if appended(first, sub) is Ok {
        let a = appended(first, sub)->Ok_0;
        let b = appended(second, numbers)->Ok_0;
        assert(a.indices =~= b.indices);
        let n = sub.positions.len() as int;
        assert(triangles_in_range(sub.indices, sub.positions.len())) by {
            assert(3 * triangle_count(sub.indices) <= sub.indices.len());
        }
        assert forall|v: int| 0 <= v < n implies canonical(#[trigger] normals_of(numbers)[v])
            == canonical(normals_of(sub)[v]) by {
            if sub.normals.len() == 0 {
                lemma_contributions_read_numbers(
                    sub.positions,
                    sub.indices,
                    v,
                    3 * triangle_count(sub.indices),
                );
            }
        }
        let va = interleaved(sub.positions, normals_of(sub));
        let vb = interleaved(numbers.positions, normals_of(numbers));
        assert forall|k: int| 0 <= k < va.len() implies canonical_word(#[trigger] va[k])
            == canonical_word(vb[k]) by {
            let v = k / 6;
            assert(0 <= v < n);
            assert(canonical(normals_of(numbers)[v]) == canonical(normals_of(sub)[v]));
            assert(numbers.positions[v] == canonical(sub.positions[v]));
        }
        assert forall|k: int| 0 <= k < a.vertices.len() implies canonical_word(
            #[trigger] a.vertices[k],
        ) == canonical_word(b.vertices[k]) by {
            if k >= first.vertices.len() {
                let j = k - first.vertices.len();
                assert(a.vertices[k] == va[j]);
                assert(b.vertices[k] == vb[j]);
            } else {
                assert(a.vertices[k] == first.vertices[k]);
                assert(b.vertices[k] == second.vertices[k]);
            }
        }
    }
}

/// Putting together sub-meshes with every NaN taken for one gives the same
/// result but for the pattern of a NaN.
pub proof fn law_assembled_reads_numbers(models: Seq<SubMeshData>)
    ensures
        same_result(assembled(models), assembled(canonical_models(models))),
    decreases models.len(),
{
    let numbers = canonical_models(models);
    if models.len() > 0 {
        law_assembled_reads_numbers(models.drop_last());
        assert(numbers.drop_last() =~= canonical_models(models.drop_last()));
        assert(numbers.last() == canonical_submesh(models.last()));
        if assembled(models.drop_last()) is Ok {
            law_appended_reads_numbers(
                assembled(models.drop_last())->Ok_0,
                assembled(numbers.drop_last())->Ok_0,
                models.last(),
            );
        }
    }
}

/// A triangle mesh in the layout that the graphics device reads.
pub struct Mesh {
    vertices: Vec<u32>,
    indices: Vec<u32>,
}

impl View for Mesh {
    type V = MeshData;

    closed spec fn view(&self) -> MeshData {
        MeshData { vertices: self.vertices@, indices: self.indices@ }
    }
}

/// Is every index below `count`?
pub fn indices_valid(indices: &[u32], count: usize) -> (r: bool)
    ensures
        r == indices_in_range(indices@, count as nat),
{
    let mut k: usize = 0;
    while k < indices.len()
        invariant
            k <= indices.len(),
            forall|j: int| 0 <= j < k ==> (#[trigger] indices[j]) < count,
        decreases indices.len() - k,
    {
        if indices[k] as usize >= count {
            return false;
        }
        k = k + 1;
    }
    true
}

impl SubMesh {
    /// Finds what is wrong with the sub-mesh, if anything.
    pub fn check(&self) -> (r: Option<GeometryLoadError>)
        ensures
            r == submesh_error(self@),
    {
        if self.indices.len() % 3 != 0 {
            Some(GeometryLoadError::PartialTriangle)
        } else if !indices_valid(self.indices.as_slice(), self.positions.len()) {
            Some(GeometryLoadError::IndexOutOfRange)
        } else if 0 < self.normals.len() && self.normals.len() < self.positions.len() {
            Some(GeometryLoadError::PartialNormals)
        } else {
            None
        }
    }
}

/// Appends to `out` the six words of every vertex.
fn push_interleaved(out: &mut Vec<u32>, positions: &[glam::Vec3], normals: &[glam::Vec3])
    requires
        normals.len() >= positions.len(),
    ensures
        final(out)@ == old(out)@ + interleaved(
            words_of(positions@),
            words_of(normals@).take(positions.len() as int),
        ),
{
    let ghost p = words_of(positions@);
    let ghost n = words_of(normals@).take(positions.len() as int);
    let mut v: usize = 0;
    while v < positions.len()
        invariant
            v <= positions.len(),
            normals.len() >= positions.len(),
            p == words_of(positions@),
            n == words_of(normals@).take(positions.len() as int),
            out@ == old(out)@ + interleaved(p.take(v as int), n.take(v as int)),
        decreases positions.len() - v,
    {
        let ghost before = out@;
        let (px, py, pz) = words(positions[v]);
        let (nx, ny, nz) = words(normals[v]);
        out.push(px);
        out.push(py);
        out.push(pz);
        out.push(nx);
        out.push(ny);
        out.push(nz);
        proof {
            let grown = interleaved(p.take(v + 1), n.take(v + 1));
            let base = old(out)@;
            assert(out@ =~= before + seq![px, py, pz, nx, ny, nz]);
            assert(out@ =~= base + grown) by {
                assert(out@.len() == base.len() + grown.len());
                assert forall|k: int| 0 <= k < out@.len() implies out@[k] == (base + grown)[k] by {
                    if k >= base.len() {
                        let j = k - base.len();
                        if j < 6 * v {
                            assert(before[k] == interleaved(p.take(v as int), n.take(v as int))[j]);
                        } else {
                            assert(j / 6 == v);
                        }
                    }
                }
            }
        }
        v = v + 1;
    }
    proof {
        assert(p.take(positions.len() as int) =~= p);
        assert(n.take(positions.len() as int) =~= n);
    }
}

/// Appends to `out` every index raised by `offset`.
fn push_shifted(out: &mut Vec<u32>, indices: &[u32], offset: u32, Ghost(count): Ghost<nat>)
    requires
        indices_in_range(indices@, count),
        offset + count <= u32::MAX,
    ensures
        final(out)@ == old(out)@ + shifted(indices@, offset as int),
{
    let mut k: usize = 0;
    while k < indices.len()
        invariant
            k <= indices.len(),
            indices_in_range(indices@, count),
            offset + count <= u32::MAX,
            out@ == old(out)@ + shifted(indices@, offset as int).take(k as int),
        decreases indices.len() - k,
    {
        assert(indices[k as int] < count);
        out.push(indices[k] + offset);
        assert(out@ =~= old(out)@ + shifted(indices@, offset as int).take(k + 1));
        k = k + 1;
    }
    assert(shifted(indices@, offset as int).take(indices.len() as int) =~= shifted(
        indices@,
        offset as int,
    ));
}

impl Mesh {
    /// The invariant of a mesh.
    pub open spec fn well_formed(&self) -> bool {
        self@.well_formed()
    }

    /// The mesh without vertices and triangles.
    pub fn new() -> (mesh: Mesh)
        ensures
            mesh@ == MeshData::empty(),
            mesh.well_formed(),
    {
        Mesh { vertices: Vec::new(), indices: Vec::new() }
    }

    /// The flat vertex array, six words per vertex.
    pub fn vertices(&self) -> (r: &Vec<u32>)
        ensures
            r@ == self@.vertices,
    {
        &self.vertices
    }

    /// The triangle index list, three indices per triangle.
    pub fn indices(&self) -> (r: &Vec<u32>)
        ensures
            r@ == self@.indices,
    {
        &self.indices
    }

    /// The number of vertices.
    pub fn vertex_count(&self) -> (r: usize)
        ensures
            r == self@.vertex_count(),
    {
        self.vertices.len() / 6
    }

    /// Appends a sub-mesh: its vertices behind those of the mesh, its indices
    /// raised by the number of vertices that the mesh had. Where the sub-mesh
    /// cannot be appended, the mesh stays as it was.
    pub fn append(&mut self, sub: &SubMesh) -> (r: Result<(), GeometryLoadError>)
        requires
            old(self).well_formed(),
        ensures
            final(self).well_formed(),
            match r {
                Ok(_) => appended(old(self)@, sub@) == Ok::<MeshData, GeometryLoadError>(
                    final(self)@,
                ),
                Err(e) => appended(old(self)@, sub@) == Err::<MeshData, GeometryLoadError>(e)
                    && final(self)@ == old(self)@,
            },
    {
        if let Some(e) = sub.check() {
            return Err(e);
        }
        let count = self.vertex_count();
        let added = sub.positions.len();
        if added > u32::MAX as usize - count {
            return Err(GeometryLoadError::TooManyVertices);
        }
        if sub.normals.len() == 0 {
            let normals = compute_normals(sub.positions.as_slice(), sub.indices.as_slice());
            proof {
                assert(words_of(normals@).take(added as int) =~= normals_of(sub@));
            }
            push_interleaved(&mut self.vertices, sub.positions.as_slice(), normals.as_slice());
        } else {
            proof {
                assert(words_of(sub.normals@).take(added as int) =~= normals_of(sub@));
            }
            push_interleaved(&mut self.vertices, sub.positions.as_slice(), sub.normals.as_slice());
        }
        push_shifted(&mut self.indices, sub.indices.as_slice(), count as u32, Ghost(added as nat));
        proof {
            let new = appended(old(self)@, sub@)->Ok_0;
            assert(self@.vertices =~= new.vertices);
            assert(self@.indices =~= new.indices);
            law_appended_is_well_formed(old(self)@, sub@);
        }
        Ok(())
    }
}

/// Puts the sub-meshes of a model together into one mesh.
pub fn assemble(models: &Vec<SubMesh>) -> (r: Result<Mesh, GeometryLoadError>)
    ensures
        match r {
            Ok(mesh) => mesh.well_formed() && assembled(views_of(models@)) == Ok::<
                MeshData,
                GeometryLoadError,
            >(mesh@),
            Err(e) => assembled(views_of(models@)) == Err::<MeshData, GeometryLoadError>(e),
        },
{
    let mut mesh = Mesh::new();
    let ghost all = views_of(models@);
    let mut i: usize = 0;
    while i < models.len()
        invariant
            i <= models.len(),
            all == views_of(models@),
            mesh.well_formed(),
            assembled(all.take(i as int)) == Ok::<MeshData, GeometryLoadError>(mesh@),
        decreases models.len() - i,
    {
        proof {
            assert(all.take(i + 1).drop_last() =~= all.take(i as int));
            assert(all.take(i + 1).last() == models[i as int]@);
        }
        match mesh.append(&models[i]) {
            Ok(_) => {},
            Err(e) => {
                proof {
                    lemma_error_stays(all, i + 1);
                }
                return Err(e);
            },
        }
        i = i + 1;
    }
    proof {
        assert(all.take(models.len() as int) =~= all);
    }
    Ok(mesh)
}

/// An error in the first `n` sub-meshes is the error of the whole list.
proof fn lemma_error_stays(models: Seq<SubMeshData>, n: int)
    requires
        0 <= n <= models.len(),
        assembled(models.take(n)) is Err,
    ensures
        assembled(models) == assembled(models.take(n)),
    decreases models.len() - n,
{
    if n < models.len() {
        assert(models.take(n + 1).drop_last() =~= models.take(n));
        lemma_error_stays(models, n + 1);
    } else {
        assert(models.take(n) =~= models);
    }
}

} // verus!
