//! The scene as the device holds it.
//!
//! The vertices of all meshes stand in one buffer, mesh after mesh, each
//! vertex widened to four components. A mesh is then described by the index
//! of its first vertex in that buffer and the number of its vertices. The
//! descriptors are contiguous: each mesh starts where the one before it ends,
//! the first starts at zero and the last ends where the buffer ends.

use crate::layout::{all_of_size, bytes_of_words, lemma_packed_push, packed, words_to_bytes};
use crate::scalar::{Scalar, ZERO_BITS};
use crate::shapes::{
    models, GPUTriangleMesh, MeshModel, Sphere, TriangleMesh, MESH_WORDS, SPHERE_WORDS,
    VERTEX_WORDS,
};
use crate::vector::{Vec3, Vec4};
use vstd::prelude::*;

verus! {

/// The vertices as the device holds them: each with a fourth component,
/// which is zero.
pub open spec fn extended(vertices: Seq<Vec3>) -> Seq<Vec4> {
    Seq::new(vertices.len(), |i: int| vertices[i].spec_extend(Scalar { bits: ZERO_BITS }))
}

/// The number of vertices of all meshes together.
pub open spec fn vertex_total(meshes: Seq<MeshModel>) -> nat
    decreases meshes.len(),
{
    if meshes.len() == 0 {
        0
    } else {
        vertex_total(meshes.drop_last()) + meshes.last().vertices.len()
    }
}

/// The vertex buffer: the vertices of the first mesh, then those of the
/// second, and so on.
pub open spec fn flat_vertices(meshes: Seq<MeshModel>) -> Seq<Vec4>
    decreases meshes.len(),
{
    if meshes.len() == 0 {
        Seq::empty()
    } else {
        flat_vertices(meshes.drop_last()) + extended(meshes.last().vertices)
    }
}

/// The index in the vertex buffer of the first vertex of mesh `i`: the
/// number of vertices of the meshes before it.
pub open spec fn first_vertex(meshes: Seq<MeshModel>, i: int) -> nat {
    vertex_total(meshes.take(i))
}

/// The descriptor of mesh `i`.
pub open spec fn descriptor(meshes: Seq<MeshModel>, i: int) -> GPUTriangleMesh {
    GPUTriangleMesh {
        start_index: first_vertex(meshes, i) as u32,
        vertex_count: meshes[i].vertices.len() as u32,
        aabb: meshes[i].aabb,
        material: meshes[i].material,
    }
}

/// The descriptors of all meshes, in the order of the meshes.
pub open spec fn descriptors(meshes: Seq<MeshModel>) -> Seq<GPUTriangleMesh> {
    Seq::new(meshes.len(), |i: int| descriptor(meshes, i))
}

/// The sum of the vertex counts of the descriptors before descriptor `i`.
pub open spec fn count_before(d: Seq<GPUTriangleMesh>, i: int) -> int
    decreases i,
{
    if i <= 0 {
        0
    } else {
        count_before(d, i - 1) + d[i - 1].vertex_count
    }
}

/// Whether the descriptors divide a vertex buffer of `total` vertices among
/// them without gap or overlap: each starts at the sum of the counts before
/// it, and all counts together are `total`.
pub open spec fn contiguous(d: Seq<GPUTriangleMesh>, total: int) -> bool {
    &&& forall|i: int| 0 <= i < d.len() ==> (#[trigger] d[i]).start_index == count_before(d, i)
    &&& count_before(d, d.len() as int) == total
}

/// The words of the sphere buffer.
pub open spec fn sphere_buffer_words(spheres: Seq<Sphere>) -> Seq<u32> {
    packed(Seq::new(spheres.len(), |i: int| spheres[i].words()), SPHERE_WORDS as nat)
}

/// The words of the vertex buffer.
pub open spec fn vertex_buffer_words(vertices: Seq<Vec4>) -> Seq<u32> {
    packed(Seq::new(vertices.len(), |i: int| vertices[i].words()), VERTEX_WORDS as nat)
}

/// The words of the mesh buffer.
pub open spec fn mesh_buffer_words(d: Seq<GPUTriangleMesh>) -> Seq<u32> {
    packed(Seq::new(d.len(), |i: int| d[i].words()), MESH_WORDS as nat)
}

/// One mesh more adds its vertices to the total.
pub proof fn lemma_total_step(meshes: Seq<MeshModel>, i: int)
    requires
        0 <= i < meshes.len(),
    ensures
        first_vertex(meshes, i + 1) == first_vertex(meshes, i) + meshes[i].vertices.len(),
        flat_vertices(meshes.take(i + 1)) == flat_vertices(meshes.take(i)) + extended(
            meshes[i].vertices,
        ),
{
    assert(meshes.take(i + 1).drop_last() =~= meshes.take(i));
    assert(meshes.take(i + 1).last() == meshes[i]);
}

/// The meshes up to one index have no more vertices than the meshes up to a
/// later one.
pub proof fn lemma_total_grows(meshes: Seq<MeshModel>, i: int, j: int)
    requires
        0 <= i <= j <= meshes.len(),
    ensures
        first_vertex(meshes, i) <= first_vertex(meshes, j),
        first_vertex(meshes, meshes.len() as int) == vertex_total(meshes),
    decreases j - i,
{
    assert(meshes.take(meshes.len() as int) =~= meshes);
    if i < j {
        lemma_total_step(meshes, j - 1);
        lemma_total_grows(meshes, i, j - 1);
    }
}

/// The vertex buffer has as many entries as the meshes have vertices.
pub proof fn lemma_flat_length(meshes: Seq<MeshModel>)
    ensures
        flat_vertices(meshes).len() == vertex_total(meshes),
    decreases meshes.len(),
{
    if meshes.len() > 0 {
        lemma_flat_length(meshes.drop_last());
    }
}

/// The vertex buffer of the first `i` meshes is the beginning of the vertex
/// buffer of all of them.
pub proof fn lemma_flat_prefix(meshes: Seq<MeshModel>, i: int)
    requires
        0 <= i <= meshes.len(),
    ensures
        first_vertex(meshes, i) <= flat_vertices(meshes).len(),
        flat_vertices(meshes.take(i)) == flat_vertices(meshes).take(first_vertex(meshes, i) as int),
    decreases meshes.len() - i,
{
    lemma_flat_length(meshes);
    lemma_flat_length(meshes.take(i));
    lemma_total_grows(meshes, i, meshes.len() as int);
    if i == meshes.len() {
        assert(meshes.take(i) =~= meshes);
        assert(flat_vertices(meshes).take(flat_vertices(meshes).len() as int) =~= flat_vertices(
            meshes,
        ));
    } else {
        lemma_flat_prefix(meshes, i + 1);
        lemma_total_step(meshes, i);
        let longer = flat_vertices(meshes.take(i + 1));
        let n = first_vertex(meshes, i) as int;
        assert(longer.take(n) =~= flat_vertices(meshes.take(i)));
        assert(flat_vertices(meshes).take(first_vertex(meshes, i + 1) as int).take(n)
            =~= flat_vertices(meshes).take(n));
    }
}

/// The run of the vertex buffer that the descriptor of mesh `i` names holds
/// the vertices of mesh `i`, and nothing else.
pub proof fn lemma_run_holds_the_mesh(meshes: Seq<MeshModel>, i: int)
    requires
        0 <= i < meshes.len(),
    ensures
        first_vertex(meshes, i + 1) == first_vertex(meshes, i) + meshes[i].vertices.len(),
        first_vertex(meshes, i + 1) <= flat_vertices(meshes).len(),
        flat_vertices(meshes).subrange(
            first_vertex(meshes, i) as int,
            first_vertex(meshes, i + 1) as int,
        ) == extended(meshes[i].vertices),
{
    lemma_flat_prefix(meshes, i);
    lemma_flat_prefix(meshes, i + 1);
    lemma_total_step(meshes, i);
    let start = first_vertex(meshes, i) as int;
    let end = first_vertex(meshes, i + 1) as int;
    let flat = flat_vertices(meshes);
    assert(flat.subrange(start, end) =~= flat.take(end).subrange(start, end));
    assert(flat.take(end).subrange(start, end) =~= extended(meshes[i].vertices));
}

/// Where the vertices of all meshes can be counted in 32 bits, the counts of
/// the descriptors before descriptor `i` add up to the first vertex of mesh
/// `i`.
pub proof fn lemma_counts_add_up(meshes: Seq<MeshModel>, i: int)
    requires
        vertex_total(meshes) <= u32::MAX,
        0 <= i <= meshes.len(),
    ensures
        count_before(descriptors(meshes), i) == first_vertex(meshes, i),
    decreases i,
{
    if i > 0 {
        lemma_counts_add_up(meshes, i - 1);
        lemma_total_step(meshes, i - 1);
        lemma_total_grows(meshes, i, meshes.len() as int);
    } else {
        assert(meshes.take(0) =~= Seq::<MeshModel>::empty());
    }
}

/// The descriptors of the meshes are contiguous: mesh `i` starts at the sum
/// of the vertex counts of the meshes before it, and the last mesh ends where
/// the vertex buffer ends.
pub proof fn lemma_descriptors_are_contiguous(meshes: Seq<MeshModel>)
    requires
        vertex_total(meshes) <= u32::MAX,
    ensures
        contiguous(descriptors(meshes), flat_vertices(meshes).len() as int),
        meshes.len() > 0 ==> descriptors(meshes).last().end_index() == flat_vertices(meshes).len(),
{
    let d = descriptors(meshes);
    let n = meshes.len() as int;
    lemma_flat_length(meshes);
    lemma_total_grows(meshes, 0, n);
    assert forall|i: int| 0 <= i < d.len() implies (#[trigger] d[i]).start_index == count_before(
        d,
        i,
    ) by {
        lemma_counts_add_up(meshes, i);
        lemma_total_grows(meshes, i, n);
    }
    lemma_counts_add_up(meshes, n);
    if n > 0 {
        lemma_total_step(meshes, n - 1);
        lemma_total_grows(meshes, n - 1, n);
    }
}

/// The vertex buffer of the meshes.
pub fn flatten_vertices(meshes: &Vec<TriangleMesh>) -> (flat: Vec<Vec4>)
    ensures
        flat@ == flat_vertices(models(meshes@)),
        flat@.len() == vertex_total(models(meshes@)),
{
    let ghost all = models(meshes@);
    let zero = Scalar { bits: ZERO_BITS };
    let mut flat: Vec<Vec4> = Vec::new();
    let mut i: usize = 0;
    assert(all.take(0) =~= Seq::<MeshModel>::empty());
    while i < meshes.len()
        invariant
            i <= meshes.len(),
            all == models(meshes@),
            zero == (Scalar { bits: ZERO_BITS }),
            flat@ == flat_vertices(all.take(i as int)),
        decreases meshes.len() - i,
    {
        let mesh = &meshes[i];
        let ghost before = flat@;
        let mut j: usize = 0;
        while j < mesh.vertices.len()
            invariant
                j <= mesh.vertices.len(),
                zero == (Scalar { bits: ZERO_BITS }),
                flat@ == before + extended(mesh.vertices@).take(j as int),
            decreases mesh.vertices.len() - j,
        {
            flat.push(mesh.vertices[j].extend(zero));
            assert(flat@ =~= before + extended(mesh.vertices@).take(j + 1));
            j += 1;
        }
        proof {
            assert(extended(mesh.vertices@).take(j as int) =~= extended(mesh.vertices@));
            assert(all[i as int].vertices == mesh.vertices@);
            lemma_total_step(all, i as int);
        }
        i += 1;
    }
    proof {
        assert(all.take(i as int) =~= all);
        lemma_flat_length(all);
    }
    flat
}

/// The descriptors of the meshes, or `None` where the meshes have more
/// vertices than 32 bits can count.
pub fn describe_meshes(meshes: &Vec<TriangleMesh>) -> (described: Option<Vec<GPUTriangleMesh>>)
    ensures
        described is Some <==> vertex_total(models(meshes@)) <= u32::MAX,
        described matches Some(d) ==> {
            &&& d@ == descriptors(models(meshes@))
            &&& contiguous(d@, vertex_total(models(meshes@)) as int)
        },
{
    let ghost all = models(meshes@);
    let mut d: Vec<GPUTriangleMesh> = Vec::new();
    let mut start: u32 = 0;
    let mut i: usize = 0;
    assert(all.take(0) =~= Seq::<MeshModel>::empty());
    while i < meshes.len()
        invariant
            i <= meshes.len(),
            all == models(meshes@),
            start == first_vertex(all, i as int),
            d@.len() == i,
            forall|k: int| 0 <= k < i ==> d@[k] == descriptor(all, k),
        decreases meshes.len() - i,
    {
        let mesh = &meshes[i];
        let count = mesh.vertices.len();
        proof {
            assert(all[i as int].vertices == mesh.vertices@);
            lemma_total_step(all, i as int);
            lemma_total_grows(all, i + 1, meshes.len() as int);
        }
        if count > (u32::MAX - start) as usize {
            return None;
        }
        d.push(
            GPUTriangleMesh {
                start_index: start,
                vertex_count: count as u32,
                aabb: mesh.aabb,
                material: mesh.material,
            },
        );
        start = start + count as u32;
        i += 1;
    }
    proof {
        lemma_total_grows(all, 0, meshes.len() as int);
        assert(d@ =~= descriptors(all));
        lemma_descriptors_are_contiguous(all);
        lemma_flat_length(all);
    }
    Some(d)
}

/// Whether the descriptors are contiguous over a vertex buffer of `total`
/// vertices, see [`contiguous`].
pub fn is_contiguous(d: &Vec<GPUTriangleMesh>, total: usize) -> (r: bool)
    ensures
        r == contiguous(d@, total as int),
{
    let mut sum: u64 = 0;
    let mut i: usize = 0;
    while i < d.len()
        invariant
            i <= d.len(),
            sum == count_before(d@, i as int),
            sum <= 2 * u32::MAX,
            forall|k: int| 0 <= k < i ==> (#[trigger] d@[k]).start_index == count_before(d@, k),
        decreases d.len() - i,
    {
        if d[i].start_index as u64 != sum {
            return false;
        }
        sum = sum + d[i].vertex_count as u64;
        i += 1;
    }
    sum == total as u64
}

/// The words of the sphere buffer.
pub fn sphere_words(spheres: &Vec<Sphere>) -> (words: Vec<u32>)
    ensures
        words@ == sphere_buffer_words(spheres@),
        words@.len() == SPHERE_WORDS * spheres@.len(),
{
    let mut words: Vec<u32> = Vec::new();
    let mut i: usize = 0;
    let ghost records = Seq::<Seq<u32>>::empty();
    assert(words@ =~= packed(records, SPHERE_WORDS as nat));
    while i < spheres.len()
        invariant
            i <= spheres.len(),
            records == Seq::new(i as nat, |k: int| spheres@[k].words()),
            all_of_size(records, SPHERE_WORDS as nat),
            words@ == packed(records, SPHERE_WORDS as nat),
        decreases spheres.len() - i,
    {
        spheres[i].write_words(&mut words);
        proof {
            lemma_packed_push(records, SPHERE_WORDS as nat, spheres@[i as int].words());
            records = records.push(spheres@[i as int].words());
            assert(records =~= Seq::new((i + 1) as nat, |k: int| spheres@[k].words()));
        }
        i += 1;
    }
    assert(records =~= Seq::new(spheres@.len(), |k: int| spheres@[k].words()));
    words
}

/// The words of the vertex buffer.
pub fn vertex_words(vertices: &Vec<Vec4>) -> (words: Vec<u32>)
    ensures
        words@ == vertex_buffer_words(vertices@),
        words@.len() == VERTEX_WORDS * vertices@.len(),
{
    let mut words: Vec<u32> = Vec::new();
    let mut i: usize = 0;
    let ghost records = Seq::<Seq<u32>>::empty();
    assert(words@ =~= packed(records, VERTEX_WORDS as nat));
    while i < vertices.len()
        invariant
            i <= vertices.len(),
            records == Seq::new(i as nat, |k: int| vertices@[k].words()),
            all_of_size(records, VERTEX_WORDS as nat),
            words@ == packed(records, VERTEX_WORDS as nat),
        decreases vertices.len() - i,
    {
        vertices[i].write_words(&mut words);
        proof {
            lemma_packed_push(records, VERTEX_WORDS as nat, vertices@[i as int].words());
            records = records.push(vertices@[i as int].words());
            assert(records =~= Seq::new((i + 1) as nat, |k: int| vertices@[k].words()));
        }
        i += 1;
    }
    assert(records =~= Seq::new(vertices@.len(), |k: int| vertices@[k].words()));
    words
}

/// The words of the mesh buffer.
pub fn mesh_words(d: &Vec<GPUTriangleMesh>) -> (words: Vec<u32>)
    ensures
        words@ == mesh_buffer_words(d@),
        words@.len() == MESH_WORDS * d@.len(),
{
    let mut words: Vec<u32> = Vec::new();
    let mut i: usize = 0;
    let ghost records = Seq::<Seq<u32>>::empty();
    assert(words@ =~= packed(records, MESH_WORDS as nat));
    while i < d.len()
        invariant
            i <= d.len(),
            records == Seq::new(i as nat, |k: int| d@[k].words()),
            all_of_size(records, MESH_WORDS as nat),
            words@ == packed(records, MESH_WORDS as nat),
        decreases d.len() - i,
    {
        d[i].write_words(&mut words);
        proof {
            lemma_packed_push(records, MESH_WORDS as nat, d@[i as int].words());
            records = records.push(d@[i as int].words());
            assert(records =~= Seq::new((i + 1) as nat, |k: int| d@[k].words()));
        }
        i += 1;
    }
    assert(records =~= Seq::new(d@.len(), |k: int| d@[k].words()));
    words
}

/// The contents of the three buffers of a scene, and the two counts that
/// the kernel is told.
#[derive(Clone, Debug, PartialEq, Eq)]
pub struct SceneBuffers {
    /// The bytes of the sphere buffer.
    pub spheres: Vec<u8>,
    /// The bytes of the vertex buffer.
    pub vertices: Vec<u8>,
    /// The bytes of the mesh buffer.
    pub meshes: Vec<u8>,
    /// The number of spheres in the sphere buffer.
    pub sphere_count: u32,
    /// The number of meshes in the mesh buffer.
    pub mesh_count: u32,
}

/// Whether 32 bits can count the spheres, the meshes, and the vertices of all
/// meshes together.
pub open spec fn scene_fits(spheres: Seq<Sphere>, meshes: Seq<MeshModel>) -> bool {
    &&& spheres.len() <= u32::MAX
    &&& meshes.len() <= u32::MAX
    &&& vertex_total(meshes) <= u32::MAX
}

impl SceneBuffers {
    /// Whether the buffers hold the given scene.
    pub open spec fn holds(self, spheres: Seq<Sphere>, meshes: Seq<MeshModel>) -> bool {
        &&& self.spheres@ == bytes_of_words(sphere_buffer_words(spheres))
        &&& self.vertices@ == bytes_of_words(vertex_buffer_words(flat_vertices(meshes)))
        &&& self.meshes@ == bytes_of_words(mesh_buffer_words(descriptors(meshes)))
        &&& self.sphere_count == spheres.len()
        &&& self.mesh_count == meshes.len()
    }
}

/// The buffers of a scene, or `None` where the scene is too large for the
/// 32-bit counts and indices of the device.
pub fn build_scene_buffers(spheres: &Vec<Sphere>, meshes: &Vec<TriangleMesh>) -> (built: Option<
    SceneBuffers,
>)
    ensures
        built is Some <==> scene_fits(spheres@, models(meshes@)),
        built matches Some(b) ==> {
            &&& b.holds(spheres@, models(meshes@))
            &&& b.spheres@.len() == 4 * SPHERE_WORDS * spheres@.len()
            &&& b.vertices@.len() == 4 * VERTEX_WORDS * vertex_total(models(meshes@))
            &&& b.meshes@.len() == 4 * MESH_WORDS * meshes@.len()
        },
{
    if spheres.len() > u32::MAX as usize || meshes.len() > u32::MAX as usize {
        return None;
    }
    let described = match describe_meshes(meshes) {
        Some(d) => d,
        None => {
            return None;
        },
    };
    let flat = flatten_vertices(meshes);
    let sphere_bytes = words_to_bytes(&sphere_words(spheres));
    let vertex_bytes = words_to_bytes(&vertex_words(&flat));
    let mesh_bytes = words_to_bytes(&mesh_words(&described));
    Some(
        SceneBuffers {
            spheres: sphere_bytes,
            vertices: vertex_bytes,
            meshes: mesh_bytes,
            sphere_count: spheres.len() as u32,
            mesh_count: meshes.len() as u32,
        },
    )
}

} // verus!
