//! The scene presets.
//!
//! A preset is a fixed list of spheres and a fixed list of triangle meshes.
//! Each is written down once as a mathematical value and once as the code
//! that builds it, and the builder is proved to return that value. Every
//! preset is well formed: radii are positive, materials are valid, and the
//! box of each mesh contains the vertices of the mesh.

use crate::scalar::{Scalar, ONE_BITS, ZERO_BITS};
use crate::shapes::{
    all_meshes_valid, all_spheres_valid, models, Aabb, Material, MeshModel, Sphere, TriangleMesh,
};
use crate::vector::Vec3;
use vstd::prelude::*;

verus! {

// The decimal numbers of the presets, each as the bits of the nearest
// binary32 value.
pub const NEG_100: u32 = 0xC2C8_0000;

pub const NEG_10: u32 = 0xC120_0000;

pub const NEG_4: u32 = 0xC080_0000;

pub const NEG_3: u32 = 0xC040_0000;

pub const NEG_2_5: u32 = 0xC020_0000;

pub const NEG_2: u32 = 0xC000_0000;

pub const NEG_1: u32 = 0xBF80_0000;

pub const NEG_0_5: u32 = 0xBF00_0000;

pub const NEG_0_4: u32 = 0xBECC_CCCD;

pub const NEG_0_2: u32 = 0xBE4C_CCCD;

pub const POS_0_01: u32 = 0x3C23_D70A;

pub const POS_0_06: u32 = 0x3D75_C28F;

pub const POS_0_07: u32 = 0x3D8F_5C29;

pub const POS_0_1: u32 = 0x3DCC_CCCD;

pub const POS_0_13: u32 = 0x3E05_1EB8;

pub const POS_0_16: u32 = 0x3E23_D70A;

pub const POS_0_2: u32 = 0x3E4C_CCCD;

pub const POS_0_23: u32 = 0x3E6B_851F;

pub const POS_0_28: u32 = 0x3E8F_5C29;

pub const POS_0_38: u32 = 0x3EC2_8F5C;

pub const POS_0_4: u32 = 0x3ECC_CCCD;

pub const POS_0_5: u32 = 0x3F00_0000;

pub const POS_0_51: u32 = 0x3F02_8F5C;

pub const POS_0_75: u32 = 0x3F40_0000;

pub const POS_0_8: u32 = 0x3F4C_CCCD;

pub const POS_0_81: u32 = 0x3F4F_5C29;

pub const POS_0_94: u32 = 0x3F70_A3D7;

pub const POS_0_95: u32 = 0x3F73_3333;

pub const POS_1_25: u32 = 0x3FA0_0000;

pub const POS_2: u32 = 0x4000_0000;

pub const POS_3: u32 = 0x4040_0000;

pub const POS_5: u32 = 0x40A0_0000;

pub const POS_5_5: u32 = 0x40B0_0000;

pub const POS_9_9: u32 = 0x411E_6666;

pub const POS_10: u32 = 0x4120_0000;

pub const POS_100: u32 = 0x42C8_0000;

/// The scenes that can be built.
#[derive(Clone, Copy, Debug, PartialEq, Eq, Structural)]
pub enum ScenePreset {
    /// Six spheres, the last of them the ground, and one glowing triangle.
    Spheres,
    /// Three spheres in a box of six walls, lit by a glowing panel under the
    /// ceiling.
    Cornell,
}

/// The material with the given colors, emission strength and smoothness, the
/// numbers given by their bits.
pub open spec fn material(diffuse: Vec3, emission: Vec3, strength: u32, smoothness: u32) -> Material {
    Material {
        diffuse_color: diffuse,
        smoothness: Scalar { bits: smoothness },
        emission_color: emission,
        emission_strength: Scalar { bits: strength },
    }
}

/// The sphere with the given center, radius and material.
pub open spec fn sphere(center: Vec3, radius: u32, material: Material) -> Sphere {
    Sphere { position: center, radius: Scalar { bits: radius }, material }
}

/// The box between two corners.
pub open spec fn aabb(min: Vec3, max: Vec3) -> Aabb {
    Aabb {
        min: min.spec_extend(Scalar { bits: ZERO_BITS }),
        max: max.spec_extend(Scalar { bits: ZERO_BITS }),
    }
}

/// The mesh of one triangle.
pub open spec fn triangle(a: Vec3, b: Vec3, c: Vec3, bounds: Aabb, material: Material) -> MeshModel {
    MeshModel { vertices: seq![a, b, c], aabb: bounds, material }
}

/// The mesh of a quadrilateral with corners `a`, `b`, `c`, `d` in order
/// around it: the triangles `a b c` and `a c d`.
pub open spec fn quad(
    a: Vec3,
    b: Vec3,
    c: Vec3,
    d: Vec3,
    bounds: Aabb,
    material: Material,
) -> MeshModel {
    MeshModel { vertices: seq![a, b, c, a, c, d], aabb: bounds, material }
}

/// The spheres of [`ScenePreset::Spheres`].
pub open spec fn spheres_preset_spheres() -> Seq<Sphere> {
    seq![
        sphere(
            Vec3::spec_from_bits(NEG_4, POS_0_4, NEG_0_4),
            POS_0_4,
            material(
                Vec3::spec_from_bits(POS_0_2, POS_0_2, POS_0_2),
                Vec3::spec_from_bits(ZERO_BITS, ZERO_BITS, ZERO_BITS),
                ZERO_BITS,
                ZERO_BITS,
            ),
        ),
        sphere(
            Vec3::spec_from_bits(NEG_2_5, POS_0_75, NEG_0_2),
            POS_0_75,
            material(
                Vec3::spec_from_bits(POS_0_13, POS_0_51, POS_0_95),
                Vec3::spec_from_bits(ZERO_BITS, ZERO_BITS, ZERO_BITS),
                ZERO_BITS,
                ZERO_BITS,
            ),
        ),
        sphere(
            Vec3::spec_from_bits(NEG_0_5, ONE_BITS, ZERO_BITS),
            ONE_BITS,
            material(
                Vec3::spec_from_bits(POS_0_28, POS_0_94, POS_0_07),
                Vec3::spec_from_bits(POS_0_23, ONE_BITS, POS_0_01),
                ZERO_BITS,
                ZERO_BITS,
            ),
        ),
        sphere(
            Vec3::spec_from_bits(POS_2, POS_1_25, NEG_0_2),
            POS_1_25,
            material(
                Vec3::spec_from_bits(ONE_BITS, POS_0_06, POS_0_06),
                Vec3::spec_from_bits(ZERO_BITS, ZERO_BITS, ZERO_BITS),
                ZERO_BITS,
                ZERO_BITS,
            ),
        ),
        sphere(
            Vec3::spec_from_bits(POS_5_5, POS_2, NEG_0_4),
            POS_2,
            material(
                Vec3::spec_from_bits(ONE_BITS, ONE_BITS, ONE_BITS),
                Vec3::spec_from_bits(ONE_BITS, ONE_BITS, ONE_BITS),
                ZERO_BITS,
                ZERO_BITS,
            ),
        ),
        sphere(
            Vec3::spec_from_bits(ZERO_BITS, NEG_100, ZERO_BITS),
            POS_100,
            material(
                Vec3::spec_from_bits(POS_0_38, POS_0_16, POS_0_81),
                Vec3::spec_from_bits(POS_0_38, POS_0_16, POS_0_81),
                ZERO_BITS,
                ZERO_BITS,
            ),
        ),
    ]
}

/// The meshes of [`ScenePreset::Spheres`]: one triangle that glows.
pub open spec fn spheres_preset_meshes() -> Seq<MeshModel> {
    seq![
        triangle(
            Vec3::spec_from_bits(NEG_3, ZERO_BITS, NEG_3),
            Vec3::spec_from_bits(NEG_1, ZERO_BITS, NEG_3),
            Vec3::spec_from_bits(NEG_2, POS_2, NEG_3),
            aabb(
                Vec3::spec_from_bits(NEG_3, ZERO_BITS, NEG_3),
                Vec3::spec_from_bits(NEG_1, POS_2, NEG_3),
            ),
            material(
                Vec3::spec_from_bits(ONE_BITS, POS_0_5, ZERO_BITS),
                Vec3::spec_from_bits(ONE_BITS, POS_0_5, ZERO_BITS),
                POS_0_5,
                ZERO_BITS,
            ),
        ),
    ]
}

/// The spheres of [`ScenePreset::Cornell`].
pub open spec fn cornell_spheres() -> Seq<Sphere> {
    seq![
        sphere(
            Vec3::spec_from_bits(NEG_3, ZERO_BITS, ZERO_BITS),
            ONE_BITS,
            material(
                Vec3::spec_from_bits(ONE_BITS, ONE_BITS, ZERO_BITS),
                Vec3::spec_from_bits(ONE_BITS, ONE_BITS, ZERO_BITS),
                POS_0_2,
                POS_0_2,
            ),
        ),
        sphere(
            Vec3::spec_from_bits(ZERO_BITS, ZERO_BITS, ZERO_BITS),
            ONE_BITS,
            material(
                Vec3::spec_from_bits(ONE_BITS, ONE_BITS, ONE_BITS),
                Vec3::spec_from_bits(ONE_BITS, ONE_BITS, ONE_BITS),
                ZERO_BITS,
                ONE_BITS,
            ),
        ),
        sphere(
            Vec3::spec_from_bits(POS_3, ZERO_BITS, ZERO_BITS),
            ONE_BITS,
            material(
                Vec3::spec_from_bits(ZERO_BITS, ONE_BITS, ZERO_BITS),
                Vec3::spec_from_bits(ZERO_BITS, ONE_BITS, ZERO_BITS),
                POS_0_2,
                POS_0_1,
            ),
        ),
    ]
}

/// A wall of the box: a surface of the given color that gives off no light
/// and is not smooth.
pub open spec fn wall(red: u32, green: u32, blue: u32) -> Material {
    material(
        Vec3::spec_from_bits(red, green, blue),
        Vec3::spec_from_bits(ZERO_BITS, ZERO_BITS, ZERO_BITS),
        ZERO_BITS,
        ZERO_BITS,
    )
}

/// The floor of the box.
pub open spec fn cornell_bottom() -> MeshModel {
    quad(
        Vec3::spec_from_bits(NEG_10, NEG_10, NEG_10),
        Vec3::spec_from_bits(POS_10, NEG_10, NEG_10),
        Vec3::spec_from_bits(POS_10, NEG_10, POS_10),
        Vec3::spec_from_bits(NEG_10, NEG_10, POS_10),
        aabb(
            Vec3::spec_from_bits(NEG_10, NEG_10, NEG_10),
            Vec3::spec_from_bits(POS_10, NEG_10, POS_10),
        ),
        wall(POS_0_8, POS_0_8, POS_0_8),
    )
}

/// The ceiling of the box.
pub open spec fn cornell_top() -> MeshModel {
    quad(
        Vec3::spec_from_bits(NEG_10, POS_10, NEG_10),
        Vec3::spec_from_bits(POS_10, POS_10, NEG_10),
        Vec3::spec_from_bits(POS_10, POS_10, POS_10),
        Vec3::spec_from_bits(NEG_10, POS_10, POS_10),
        aabb(
            Vec3::spec_from_bits(NEG_10, POS_10, NEG_10),
            Vec3::spec_from_bits(POS_10, POS_10, POS_10),
        ),
        wall(POS_0_8, POS_0_8, POS_0_8),
    )
}

/// The far wall of the box.
pub open spec fn cornell_back() -> MeshModel {
    quad(
        Vec3::spec_from_bits(NEG_10, NEG_10, NEG_10),
        Vec3::spec_from_bits(POS_10, NEG_10, NEG_10),
        Vec3::spec_from_bits(POS_10, POS_10, NEG_10),
        Vec3::spec_from_bits(NEG_10, POS_10, NEG_10),
        aabb(
            Vec3::spec_from_bits(NEG_10, NEG_10, NEG_10),
            Vec3::spec_from_bits(POS_10, POS_10, NEG_10),
        ),
        wall(POS_0_8, POS_0_8, POS_0_8),
    )
}

/// The left wall of the box, which is red.
pub open spec fn cornell_left() -> MeshModel {
    quad(
        Vec3::spec_from_bits(NEG_10, NEG_10, NEG_10),
        Vec3::spec_from_bits(NEG_10, NEG_10, POS_10),
        Vec3::spec_from_bits(NEG_10, POS_10, POS_10),
        Vec3::spec_from_bits(NEG_10, POS_10, NEG_10),
        aabb(
            Vec3::spec_from_bits(NEG_10, NEG_10, NEG_10),
            Vec3::spec_from_bits(NEG_10, POS_10, POS_10),
        ),
        wall(POS_0_8, ZERO_BITS, ZERO_BITS),
    )
}

/// The right wall of the box, which is green.
pub open spec fn cornell_right() -> MeshModel {
    quad(
        Vec3::spec_from_bits(POS_10, NEG_10, NEG_10),
        Vec3::spec_from_bits(POS_10, NEG_10, POS_10),
        Vec3::spec_from_bits(POS_10, POS_10, POS_10),
        Vec3::spec_from_bits(POS_10, POS_10, NEG_10),
        aabb(
            Vec3::spec_from_bits(POS_10, NEG_10, NEG_10),
            Vec3::spec_from_bits(POS_10, POS_10, POS_10),
        ),
        wall(ZERO_BITS, POS_0_8, ZERO_BITS),
    )
}

/// The near wall of the box.
pub open spec fn cornell_front() -> MeshModel {
    quad(
        Vec3::spec_from_bits(NEG_10, NEG_10, POS_10),
        Vec3::spec_from_bits(POS_10, NEG_10, POS_10),
        Vec3::spec_from_bits(POS_10, POS_10, POS_10),
        Vec3::spec_from_bits(NEG_10, POS_10, POS_10),
        aabb(
            Vec3::spec_from_bits(NEG_10, NEG_10, POS_10),
            Vec3::spec_from_bits(POS_10, POS_10, POS_10),
        ),
        wall(POS_0_8, POS_0_8, POS_0_8),
    )
}

/// The panel under the ceiling that lights the box. Its box reaches up to
/// the ceiling.
pub open spec fn cornell_light() -> MeshModel {
    quad(
        Vec3::spec_from_bits(NEG_2, POS_9_9, NEG_2),
        Vec3::spec_from_bits(POS_2, POS_9_9, NEG_2),
        Vec3::spec_from_bits(POS_2, POS_9_9, POS_2),
        Vec3::spec_from_bits(NEG_2, POS_9_9, POS_2),
        aabb(Vec3::spec_from_bits(NEG_2, POS_9_9, NEG_2), Vec3::spec_from_bits(POS_2, POS_10, POS_2)),
        material(
            Vec3::spec_from_bits(ONE_BITS, ONE_BITS, ONE_BITS),
            Vec3::spec_from_bits(ONE_BITS, ONE_BITS, ONE_BITS),
            POS_5,
            ZERO_BITS,
        ),
    )
}

/// The meshes of [`ScenePreset::Cornell`]: floor, ceiling, far, left, right
/// and near wall, then the light.
pub open spec fn cornell_meshes() -> Seq<MeshModel> {
    seq![
        cornell_bottom(),
        cornell_top(),
        cornell_back(),
        cornell_left(),
        cornell_right(),
        cornell_front(),
        cornell_light(),
    ]
}

/// The spheres of a preset.
pub open spec fn preset_spheres(preset: ScenePreset) -> Seq<Sphere> {
    match preset {
        ScenePreset::Spheres => spheres_preset_spheres(),
        ScenePreset::Cornell => cornell_spheres(),
    }
}

/// The meshes of a preset.
pub open spec fn preset_meshes(preset: ScenePreset) -> Seq<MeshModel> {
    match preset {
        ScenePreset::Spheres => spheres_preset_meshes(),
        ScenePreset::Cornell => cornell_meshes(),
    }
}

/// The preset that a name selects: `cornell` selects the box, and every
/// other name the spheres.
pub open spec fn preset_named(name: Seq<char>) -> ScenePreset {
    if name == "cornell"@ {
        ScenePreset::Cornell
    } else {
        ScenePreset::Spheres
    }
}

/// The preset that an optional name selects: without a name, the spheres.
pub open spec fn preset_selected(name: Option<&str>) -> ScenePreset {
    match name {
        Some(n) => preset_named(n@),
        None => ScenePreset::Spheres,
    }
}

fn make_material(diffuse: Vec3, emission: Vec3, strength: u32, smoothness: u32) -> (m: Material)
    ensures
        m == material(diffuse, emission, strength, smoothness),
{
    Material {
        diffuse_color: diffuse,
        smoothness: Scalar { bits: smoothness },
        emission_color: emission,
        emission_strength: Scalar { bits: strength },
    }
}

fn make_sphere(center: Vec3, radius: u32, material: Material) -> (s: Sphere)
    ensures
        s == sphere(center, radius, material),
{
    Sphere { position: center, radius: Scalar { bits: radius }, material }
}

fn make_aabb(min: Vec3, max: Vec3) -> (b: Aabb)
    ensures
        b == aabb(min, max),
{
    Aabb { min: min.extend(Scalar { bits: ZERO_BITS }), max: max.extend(Scalar { bits: ZERO_BITS }) }
}

fn make_wall(red: u32, green: u32, blue: u32) -> (m: Material)
    ensures
        m == wall(red, green, blue),
{
    make_material(
        Vec3::from_bits(red, green, blue),
        Vec3::from_bits(ZERO_BITS, ZERO_BITS, ZERO_BITS),
        ZERO_BITS,
        ZERO_BITS,
    )
}

fn make_triangle(a: Vec3, b: Vec3, c: Vec3, bounds: Aabb, material: Material) -> (m: TriangleMesh)
    ensures
        m@ == triangle(a, b, c, bounds, material),
{
    TriangleMesh { vertices: vec![a, b, c], aabb: bounds, material }
}

fn make_quad(a: Vec3, b: Vec3, c: Vec3, d: Vec3, bounds: Aabb, material: Material) -> (m:
    TriangleMesh)
    ensures
        m@ == quad(a, b, c, d, bounds, material),
{
    TriangleMesh { vertices: vec![a, b, c, a, c, d], aabb: bounds, material }
}

/// A quadrilateral is a valid mesh when its material is valid and its box is
/// valid and contains the four corners.
pub proof fn lemma_quad_is_valid(
    a: Vec3,
    b: Vec3,
    c: Vec3,
    d: Vec3,
    bounds: Aabb,
    material: Material,
)
    requires
        bounds.valid(),
        bounds.contains(a),
        bounds.contains(b),
        bounds.contains(c),
        bounds.contains(d),
        material.valid(),
    ensures
        quad(a, b, c, d, bounds, material).valid(),
        quad(a, b, c, d, bounds, material).triangles() == 2,
{
}

/// Every preset is well formed.
pub proof fn lemma_presets_are_valid(preset: ScenePreset)
    ensures
        all_spheres_valid(preset_spheres(preset)),
        all_meshes_valid(preset_meshes(preset)),
{
    match preset {
        ScenePreset::Spheres => {
            let t = spheres_preset_meshes()[0];
            assert(t.aabb.contains_all(t.vertices));
        },
        ScenePreset::Cornell => {
            lemma_cornell_walls_are_valid();
        },
    }
}

proof fn lemma_cornell_walls_are_valid()
    ensures
        forall|i: int| 0 <= i < 7 ==> (#[trigger] cornell_meshes()[i]).valid(),
        forall|i: int| 0 <= i < 7 ==> (#[trigger] cornell_meshes()[i]).triangles() == 2,
{
    let m = cornell_bottom();
    lemma_quad_is_valid(m.vertices[0], m.vertices[1], m.vertices[2], m.vertices[5], m.aabb, m.material);
    let m = cornell_top();
    lemma_quad_is_valid(m.vertices[0], m.vertices[1], m.vertices[2], m.vertices[5], m.aabb, m.material);
    let m = cornell_back();
    lemma_quad_is_valid(m.vertices[0], m.vertices[1], m.vertices[2], m.vertices[5], m.aabb, m.material);
    let m = cornell_left();
    lemma_quad_is_valid(m.vertices[0], m.vertices[1], m.vertices[2], m.vertices[5], m.aabb, m.material);
    let m = cornell_right();
    lemma_quad_is_valid(m.vertices[0], m.vertices[1], m.vertices[2], m.vertices[5], m.aabb, m.material);
    let m = cornell_front();
    lemma_quad_is_valid(m.vertices[0], m.vertices[1], m.vertices[2], m.vertices[5], m.aabb, m.material);
    let m = cornell_light();
    lemma_quad_is_valid(m.vertices[0], m.vertices[1], m.vertices[2], m.vertices[5], m.aabb, m.material);
}

/// Builds the spheres preset: six spheres and one glowing triangle.
pub fn spheres() -> (scene: (Vec<Sphere>, Vec<TriangleMesh>))
    ensures
        scene.0@ == spheres_preset_spheres(),
        models(scene.1@) == spheres_preset_meshes(),
        all_spheres_valid(scene.0@),
        all_meshes_valid(models(scene.1@)),
{
    let dark = Vec3::from_bits(ZERO_BITS, ZERO_BITS, ZERO_BITS);
    let spheres = vec![
        make_sphere(
            Vec3::from_bits(NEG_4, POS_0_4, NEG_0_4),
            POS_0_4,
            make_material(Vec3::from_bits(POS_0_2, POS_0_2, POS_0_2), dark, ZERO_BITS, ZERO_BITS),
        ),
        make_sphere(
            Vec3::from_bits(NEG_2_5, POS_0_75, NEG_0_2),
            POS_0_75,
            make_material(Vec3::from_bits(POS_0_13, POS_0_51, POS_0_95), dark, ZERO_BITS, ZERO_BITS),
        ),
        make_sphere(
            Vec3::from_bits(NEG_0_5, ONE_BITS, ZERO_BITS),
            ONE_BITS,
            make_material(
                Vec3::from_bits(POS_0_28, POS_0_94, POS_0_07),
                Vec3::from_bits(POS_0_23, ONE_BITS, POS_0_01),
                ZERO_BITS,
                ZERO_BITS,
            ),
        ),
        make_sphere(
            Vec3::from_bits(POS_2, POS_1_25, NEG_0_2),
            POS_1_25,
            make_material(Vec3::from_bits(ONE_BITS, POS_0_06, POS_0_06), dark, ZERO_BITS, ZERO_BITS),
        ),
        make_sphere(
            Vec3::from_bits(POS_5_5, POS_2, NEG_0_4),
            POS_2,
            make_material(
                Vec3::from_bits(ONE_BITS, ONE_BITS, ONE_BITS),
                Vec3::from_bits(ONE_BITS, ONE_BITS, ONE_BITS),
                ZERO_BITS,
                ZERO_BITS,
            ),
        ),
        make_sphere(
            Vec3::from_bits(ZERO_BITS, NEG_100, ZERO_BITS),
            POS_100,
            make_material(
                Vec3::from_bits(POS_0_38, POS_0_16, POS_0_81),
                Vec3::from_bits(POS_0_38, POS_0_16, POS_0_81),
                ZERO_BITS,
                ZERO_BITS,
            ),
        ),
    ];
    let meshes = vec![
        make_triangle(
            Vec3::from_bits(NEG_3, ZERO_BITS, NEG_3),
            Vec3::from_bits(NEG_1, ZERO_BITS, NEG_3),
            Vec3::from_bits(NEG_2, POS_2, NEG_3),
            make_aabb(Vec3::from_bits(NEG_3, ZERO_BITS, NEG_3), Vec3::from_bits(NEG_1, POS_2, NEG_3)),
            make_material(
                Vec3::from_bits(ONE_BITS, POS_0_5, ZERO_BITS),
                Vec3::from_bits(ONE_BITS, POS_0_5, ZERO_BITS),
                POS_0_5,
                ZERO_BITS,
            ),
        ),
    ];
    proof {
        assert(spheres@ =~= spheres_preset_spheres());
        assert(models(meshes@) =~= spheres_preset_meshes());
        lemma_presets_are_valid(ScenePreset::Spheres);
    }
    (spheres, meshes)
}

/// Builds the Cornell box: three spheres, six walls and the light, each of
/// the seven a quadrilateral of two triangles.
pub fn cornell_box() -> (scene: (Vec<Sphere>, Vec<TriangleMesh>))
    ensures
        scene.0@ == cornell_spheres(),
        models(scene.1@) == cornell_meshes(),
        all_spheres_valid(scene.0@),
        all_meshes_valid(models(scene.1@)),
{
    let spheres = vec![
        make_sphere(
            Vec3::from_bits(NEG_3, ZERO_BITS, ZERO_BITS),
            ONE_BITS,
            make_material(
                Vec3::from_bits(ONE_BITS, ONE_BITS, ZERO_BITS),
                Vec3::from_bits(ONE_BITS, ONE_BITS, ZERO_BITS),
                POS_0_2,
                POS_0_2,
            ),
        ),
        make_sphere(
            Vec3::from_bits(ZERO_BITS, ZERO_BITS, ZERO_BITS),
            ONE_BITS,
            make_material(
                Vec3::from_bits(ONE_BITS, ONE_BITS, ONE_BITS),
                Vec3::from_bits(ONE_BITS, ONE_BITS, ONE_BITS),
                ZERO_BITS,
                ONE_BITS,
            ),
        ),
        make_sphere(
            Vec3::from_bits(POS_3, ZERO_BITS, ZERO_BITS),
            ONE_BITS,
            make_material(
                Vec3::from_bits(ZERO_BITS, ONE_BITS, ZERO_BITS),
                Vec3::from_bits(ZERO_BITS, ONE_BITS, ZERO_BITS),
                POS_0_2,
                POS_0_1,
            ),
        ),
    ];
    let grey = make_wall(POS_0_8, POS_0_8, POS_0_8);
    let bottom = make_quad(
        Vec3::from_bits(NEG_10, NEG_10, NEG_10),
        Vec3::from_bits(POS_10, NEG_10, NEG_10),
        Vec3::from_bits(POS_10, NEG_10, POS_10),
        Vec3::from_bits(NEG_10, NEG_10, POS_10),
        make_aabb(Vec3::from_bits(NEG_10, NEG_10, NEG_10), Vec3::from_bits(POS_10, NEG_10, POS_10)),
        grey,
    );
    let top = make_quad(
        Vec3::from_bits(NEG_10, POS_10, NEG_10),
        Vec3::from_bits(POS_10, POS_10, NEG_10),
        Vec3::from_bits(POS_10, POS_10, POS_10),
        Vec3::from_bits(NEG_10, POS_10, POS_10),
        make_aabb(Vec3::from_bits(NEG_10, POS_10, NEG_10), Vec3::from_bits(POS_10, POS_10, POS_10)),
        grey,
    );
    let back = make_quad(
        Vec3::from_bits(NEG_10, NEG_10, NEG_10),
        Vec3::from_bits(POS_10, NEG_10, NEG_10),
        Vec3::from_bits(POS_10, POS_10, NEG_10),
        Vec3::from_bits(NEG_10, POS_10, NEG_10),
        make_aabb(Vec3::from_bits(NEG_10, NEG_10, NEG_10), Vec3::from_bits(POS_10, POS_10, NEG_10)),
        grey,
    );
    let left = make_quad(
        Vec3::from_bits(NEG_10, NEG_10, NEG_10),
        Vec3::from_bits(NEG_10, NEG_10, POS_10),
        Vec3::from_bits(NEG_10, POS_10, POS_10),
        Vec3::from_bits(NEG_10, POS_10, NEG_10),
        make_aabb(Vec3::from_bits(NEG_10, NEG_10, NEG_10), Vec3::from_bits(NEG_10, POS_10, POS_10)),
        make_wall(POS_0_8, ZERO_BITS, ZERO_BITS),
    );
    let right = make_quad(
        Vec3::from_bits(POS_10, NEG_10, NEG_10),
        Vec3::from_bits(POS_10, NEG_10, POS_10),
        Vec3::from_bits(POS_10, POS_10, POS_10),
        Vec3::from_bits(POS_10, POS_10, NEG_10),
        make_aabb(Vec3::from_bits(POS_10, NEG_10, NEG_10), Vec3::from_bits(POS_10, POS_10, POS_10)),
        make_wall(ZERO_BITS, POS_0_8, ZERO_BITS),
    );
    let front = make_quad(
        Vec3::from_bits(NEG_10, NEG_10, POS_10),
        Vec3::from_bits(POS_10, NEG_10, POS_10),
        Vec3::from_bits(POS_10, POS_10, POS_10),
        Vec3::from_bits(NEG_10, POS_10, POS_10),
        make_aabb(Vec3::from_bits(NEG_10, NEG_10, POS_10), Vec3::from_bits(POS_10, POS_10, POS_10)),
        grey,
    );
    let light = make_quad(
        Vec3::from_bits(NEG_2, POS_9_9, NEG_2),
        Vec3::from_bits(POS_2, POS_9_9, NEG_2),
        Vec3::from_bits(POS_2, POS_9_9, POS_2),
        Vec3::from_bits(NEG_2, POS_9_9, POS_2),
        make_aabb(Vec3::from_bits(NEG_2, POS_9_9, NEG_2), Vec3::from_bits(POS_2, POS_10, POS_2)),
        make_material(
            Vec3::from_bits(ONE_BITS, ONE_BITS, ONE_BITS),
            Vec3::from_bits(ONE_BITS, ONE_BITS, ONE_BITS),
            POS_5,
            ZERO_BITS,
        ),
    );
    let meshes = vec![bottom, top, back, left, right, front, light];
    proof {
        assert(spheres@ =~= cornell_spheres());
        assert(models(meshes@) =~= cornell_meshes());
        lemma_presets_are_valid(ScenePreset::Cornell);
    }
    (spheres, meshes)
}

/// Builds the scene of a preset.
pub fn build_scene(preset: ScenePreset) -> (scene: (Vec<Sphere>, Vec<TriangleMesh>))
    ensures
        scene.0@ == preset_spheres(preset),
        models(scene.1@) == preset_meshes(preset),
        all_spheres_valid(scene.0@),
        all_meshes_valid(models(scene.1@)),
{
    match preset {
        ScenePreset::Spheres => spheres(),
        ScenePreset::Cornell => cornell_box(),
    }
}

/// The preset with the given name. A name that no preset has selects the
/// spheres.
pub fn preset_by_name(name: &str) -> (preset: ScenePreset)
    ensures
        preset == preset_named(name@),
{
    if name.to_owned() == "cornell".to_owned() {
        ScenePreset::Cornell
    } else {
        ScenePreset::Spheres
    }
}

/// The preset that the first argument of the program selects, where
/// `None` stands for a program started without arguments.
pub fn select_preset(name: Option<&str>) -> (preset: ScenePreset)
    ensures
        preset == preset_selected(name),
{
    match name {
        Some(n) => preset_by_name(n),
        None => ScenePreset::Spheres,
    }
}

} // verus!
