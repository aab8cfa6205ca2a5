//! What a scene is made of: materials, spheres and triangle meshes, and what
//! makes each of them well formed.

use crate::scalar::{Scalar, ONE_BITS, ZERO_BITS};
use crate::vector::{Vec3, Vec4};
use vstd::prelude::*;

verus! {

/// The number of words of a material on the device.
pub const MATERIAL_WORDS: usize = 8;

/// The number of words of a box on the device.
pub const AABB_WORDS: usize = 8;

/// The number of words of a sphere on the device.
pub const SPHERE_WORDS: usize = 12;

/// The number of words of a vertex on the device.
pub const VERTEX_WORDS: usize = 4;

/// The number of words of a mesh on the device.
pub const MESH_WORDS: usize = 20;

/// How a surface looks.
#[derive(Clone, Copy, Debug, PartialEq, Eq, Structural)]
pub struct Material {
    pub diffuse_color: Vec3,
    pub smoothness: Scalar,
    pub emission_color: Vec3,
    pub emission_strength: Scalar,
}

/// A sphere, given by its center and radius.
#[derive(Clone, Copy, Debug, PartialEq, Eq, Structural)]
pub struct Sphere {
    pub position: Vec3,
    pub radius: Scalar,
    pub material: Material,
}

/// An axis-aligned box. The fourth component of each corner is unused.
#[derive(Clone, Copy, Debug, PartialEq, Eq, Structural)]
pub struct Aabb {
    pub min: Vec4,
    pub max: Vec4,
}

/// A mesh on the host: every three vertices in a row are one triangle.
#[derive(Clone, Debug, PartialEq, Eq)]
pub struct TriangleMesh {
    pub vertices: Vec<Vec3>,
    pub aabb: Aabb,
    pub material: Material,
}

/// A mesh as the device sees it: a run of vertices in the vertex buffer that
/// all meshes share.
#[derive(Clone, Copy, Debug, PartialEq, Eq, Structural)]
pub struct GPUTriangleMesh {
    pub start_index: u32,
    pub vertex_count: u32,
    pub aabb: Aabb,
    pub material: Material,
}

/// The mathematical content of a [`TriangleMesh`].
pub ghost struct MeshModel {
    pub vertices: Seq<Vec3>,
    pub aabb: Aabb,
    pub material: Material,
}

impl Material {
    /// Smoothness lies between 0 and 1, and the emission strength is not
    /// negative.
    pub open spec fn valid(self) -> bool {
        &&& (Scalar { bits: ZERO_BITS }).spec_le(self.smoothness)
        &&& self.smoothness.spec_le(Scalar { bits: ONE_BITS })
        &&& (Scalar { bits: ZERO_BITS }).spec_le(self.emission_strength)
    }

    /// Whether the surface gives off light.
    pub open spec fn emissive(self) -> bool {
        (Scalar { bits: ZERO_BITS }).spec_lt(self.emission_strength)
    }

    /// Whether the material is valid.
    pub fn is_valid(&self) -> (r: bool)
        ensures
            r == self.valid(),
    {
        let zero = Scalar { bits: ZERO_BITS };
        let one = Scalar { bits: ONE_BITS };
        zero.le(self.smoothness) && self.smoothness.le(one) && zero.le(self.emission_strength)
    }

    /// Whether the surface gives off light.
    pub fn is_emissive(&self) -> (r: bool)
        ensures
            r == self.emissive(),
    {
        let zero = Scalar { bits: ZERO_BITS };
        zero.lt(self.emission_strength)
    }

    /// The eight words of a material on the device: the diffuse color, the
    /// smoothness, the emission color, the emission strength.
    pub open spec fn words(self) -> Seq<u32> {
        self.diffuse_color.words() + seq![self.smoothness.bits] + self.emission_color.words()
            + seq![self.emission_strength.bits]
    }

    /// Appends the words of the material.
    pub fn write_words(&self, out: &mut Vec<u32>)
        ensures
            final(out)@ == old(out)@ + self.words(),
            self.words().len() == MATERIAL_WORDS,
    {
        self.diffuse_color.write_words(out);
        out.push(self.smoothness.bits);
        self.emission_color.write_words(out);
        out.push(self.emission_strength.bits);
        assert(out@ =~= old(out)@ + self.words());
    }
}

impl Sphere {
    /// The radius is positive and the material is valid.
    pub open spec fn valid(self) -> bool {
        &&& (Scalar { bits: ZERO_BITS }).spec_lt(self.radius)
        &&& self.material.valid()
    }

    /// Whether the sphere is valid.
    pub fn is_valid(&self) -> (r: bool)
        ensures
            r == self.valid(),
    {
        let zero = Scalar { bits: ZERO_BITS };
        zero.lt(self.radius) && self.material.is_valid()
    }

    /// The twelve words of a sphere on the device: the center, the radius,
    /// the material.
    pub open spec fn words(self) -> Seq<u32> {
        self.position.words() + seq![self.radius.bits] + self.material.words()
    }

    /// Appends the words of the sphere.
    pub fn write_words(&self, out: &mut Vec<u32>)
        ensures
            final(out)@ == old(out)@ + self.words(),
            self.words().len() == SPHERE_WORDS,
    {
        self.position.write_words(out);
        out.push(self.radius.bits);
        self.material.write_words(out);
        assert(out@ =~= old(out)@ + self.words());
    }
}

impl Aabb {
    /// In each of the three axes, the lower corner is at most the upper one.
    pub open spec fn valid(self) -> bool {
        &&& self.min.x.spec_le(self.max.x)
        &&& self.min.y.spec_le(self.max.y)
        &&& self.min.z.spec_le(self.max.z)
    }

    /// Whether the point lies in the box, its faces included.
    pub open spec fn contains(self, p: Vec3) -> bool {
        &&& self.min.x.spec_le(p.x) && p.x.spec_le(self.max.x)
        &&& self.min.y.spec_le(p.y) && p.y.spec_le(self.max.y)
        &&& self.min.z.spec_le(p.z) && p.z.spec_le(self.max.z)
    }

    /// Whether the box contains every point of the sequence.
    pub open spec fn contains_all(self, points: Seq<Vec3>) -> bool {
        forall|i: int| 0 <= i < points.len() ==> self.contains(#[trigger] points[i])
    }

    /// Whether the box is valid.
    pub fn is_valid(&self) -> (r: bool)
        ensures
            r == self.valid(),
    {
        self.min.x.le(self.max.x) && self.min.y.le(self.max.y) && self.min.z.le(self.max.z)
    }

    /// Whether the point lies in the box, its faces included.
    pub fn has_point(&self, p: Vec3) -> (r: bool)
        ensures
            r == self.contains(p),
    {
        self.min.x.le(p.x) && p.x.le(self.max.x) && self.min.y.le(p.y) && p.y.le(self.max.y)
            && self.min.z.le(p.z) && p.z.le(self.max.z)
    }

    /// The eight words of a box on the device: the lower corner, then the
    /// upper one.
    pub open spec fn words(self) -> Seq<u32> {
        self.min.words() + self.max.words()
    }

    /// Appends the words of the box.
    pub fn write_words(&self, out: &mut Vec<u32>)
        ensures
            final(out)@ == old(out)@ + self.words(),
            self.words().len() == AABB_WORDS,
    {
        self.min.write_words(out);
        self.max.write_words(out);
        assert(out@ =~= old(out)@ + self.words());
    }
}

impl GPUTriangleMesh {
    /// The twenty words of a mesh on the device: two words of padding, which
    /// are zero, the index of the first vertex, the number of vertices, the
    /// box, the material.
    pub open spec fn words(self) -> Seq<u32> {
        seq![0u32, 0u32, self.start_index, self.vertex_count] + self.aabb.words()
            + self.material.words()
    }

    /// The index after the last vertex of the mesh.
    pub open spec fn end_index(self) -> int {
        self.start_index + self.vertex_count
    }

    /// Appends the words of the mesh.
    pub fn write_words(&self, out: &mut Vec<u32>)
        ensures
            final(out)@ == old(out)@ + self.words(),
            self.words().len() == MESH_WORDS,
    {
        out.push(0);
        out.push(0);
        out.push(self.start_index);
        out.push(self.vertex_count);
        self.aabb.write_words(out);
        self.material.write_words(out);
        assert(out@ =~= old(out)@ + self.words());
    }
}

impl MeshModel {
    /// The vertices make whole triangles, the box is valid and contains
    /// every vertex, and the material is valid.
    pub open spec fn valid(self) -> bool {
        &&& self.vertices.len() % 3 == 0
        &&& self.aabb.valid()
        &&& self.aabb.contains_all(self.vertices)
        &&& self.material.valid()
    }

    /// The number of triangles.
    pub open spec fn triangles(self) -> nat {
        self.vertices.len() / 3
    }
}

impl View for TriangleMesh {
    type V = MeshModel;

    open spec fn view(&self) -> MeshModel {
        MeshModel { vertices: self.vertices@, aabb: self.aabb, material: self.material }
    }
}

impl TriangleMesh {
    /// Whether the mesh is valid, see [`MeshModel::valid`].
    pub fn is_valid(&self) -> (r: bool)
        ensures
            r == self@.valid(),
    {
        if self.vertices.len() % 3 != 0 || !self.aabb.is_valid() || !self.material.is_valid() {
            return false;
        }
        let mut i: usize = 0;
        while i < self.vertices.len()
            invariant
                i <= self.vertices.len(),
                forall|j: int| 0 <= j < i ==> self.aabb.contains(#[trigger] self.vertices@[j]),
            decreases self.vertices.len() - i,
        {
            if !self.aabb.has_point(self.vertices[i]) {
                return false;
            }
            i += 1;
        }
        true
    }

    /// The number of triangles, rounded down where the vertices do not make
    /// whole triangles.
    pub fn triangle_count(&self) -> (n: usize)
        ensures
            n == self@.triangles(),
    {
        self.vertices.len() / 3
    }
}

/// The mathematical content of each mesh of a sequence.
pub open spec fn models(meshes: Seq<TriangleMesh>) -> Seq<MeshModel> {
    meshes.map_values(|m: TriangleMesh| m@)
}

/// Whether every sphere of the sequence is valid.
pub open spec fn all_spheres_valid(spheres: Seq<Sphere>) -> bool {
    forall|i: int| 0 <= i < spheres.len() ==> (#[trigger] spheres[i]).valid()
}

/// Whether every mesh of the sequence is valid.
pub open spec fn all_meshes_valid(meshes: Seq<MeshModel>) -> bool {
    forall|i: int| 0 <= i < meshes.len() ==> (#[trigger] meshes[i]).valid()
}

/// Whether the spheres and meshes are all valid.
pub fn scene_is_valid(spheres: &Vec<Sphere>, meshes: &Vec<TriangleMesh>) -> (r: bool)
    ensures
        r == (all_spheres_valid(spheres@) && all_meshes_valid(models(meshes@))),
{
    let mut i: usize = 0;
    while i < spheres.len()
        invariant
            i <= spheres.len(),
            forall|j: int| 0 <= j < i ==> (#[trigger] spheres@[j]).valid(),
        decreases spheres.len() - i,
    {
        if !spheres[i].is_valid() {
            return false;
        }
        i += 1;
    }
    let mut k: usize = 0;
    while k < meshes.len()
        invariant
            k <= meshes.len(),
            all_spheres_valid(spheres@),
            forall|j: int| 0 <= j < k ==> (#[trigger] models(meshes@)[j]).valid(),
        decreases meshes.len() - k,
    {
        if !meshes[k].is_valid() {
            assert(models(meshes@)[k as int] == meshes@[k as int]@);
            return false;
        }
        assert(models(meshes@)[k as int] == meshes@[k as int]@);
        k += 1;
    }
    true
}

} // verus!
