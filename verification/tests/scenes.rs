use raytracer::scalar::Scalar;
use raytracer::scenes::{
    build_scene, cornell_box, preset_by_name, select_preset, spheres, ScenePreset,
};
use raytracer::shapes::{scene_is_valid, Aabb, Material, Sphere, TriangleMesh};
use raytracer::vector::{Vec3, Vec4};

fn s(x: f32) -> Scalar {
    Scalar::from_bits(x.to_bits())
}

fn v3(x: f32, y: f32, z: f32) -> Vec3 {
    Vec3::new(s(x), s(y), s(z))
}

fn v4(x: f32, y: f32, z: f32) -> Vec4 {
    Vec4::new(s(x), s(y), s(z), s(0.0))
}

fn material(d: [f32; 3], e: [f32; 3], strength: f32, smoothness: f32) -> Material {
    Material {
        diffuse_color: v3(d[0], d[1], d[2]),
        smoothness: s(smoothness),
        emission_color: v3(e[0], e[1], e[2]),
        emission_strength: s(strength),
    }
}

fn sphere(p: [f32; 3], radius: f32, m: Material) -> Sphere {
    Sphere { position: v3(p[0], p[1], p[2]), radius: s(radius), material: m }
}

fn quad(c: [[f32; 3]; 4], min: [f32; 3], max: [f32; 3], m: Material) -> TriangleMesh {
    let p: Vec<Vec3> = c.iter().map(|x| v3(x[0], x[1], x[2])).collect();
    TriangleMesh {
        vertices: vec![p[0], p[1], p[2], p[0], p[2], p[3]],
        aabb: Aabb { min: v4(min[0], min[1], min[2]), max: v4(max[0], max[1], max[2]) },
        material: m,
    }
}

#[test]
fn cornell_has_three_spheres_and_seven_quads() {
    let (balls, meshes) = cornell_box();
    assert_eq!(balls.len(), 3);
    assert_eq!(meshes.len(), 7);
    for mesh in &meshes {
        assert_eq!(mesh.vertices.len(), 6);
        assert_eq!(mesh.triangle_count(), 2);
    }
}

#[test]
fn spheres_has_six_spheres_and_one_triangle() {
    let (balls, meshes) = spheres();
    assert_eq!(balls.len(), 6);
    assert_eq!(meshes.len(), 1);
    assert_eq!(meshes[0].vertices.len(), 3);
    assert_eq!(meshes[0].triangle_count(), 1);
}

#[test]
fn spheres_preset_has_the_expected_values() {
    let (balls, meshes) = spheres();
    let none = [0.0, 0.0, 0.0];
    let want = vec![
        sphere([-4.0, 0.4, -0.4], 0.4, material([0.2, 0.2, 0.2], none, 0.0, 0.0)),
        sphere([-2.5, 0.75, -0.2], 0.75, material([0.13, 0.51, 0.95], none, 0.0, 0.0)),
        sphere([-0.5, 1.0, 0.0], 1.0, material([0.28, 0.94, 0.07], [0.23, 1.0, 0.01], 0.0, 0.0)),
        sphere([2.0, 1.25, -0.2], 1.25, material([1.0, 0.06, 0.06], none, 0.0, 0.0)),
        sphere([5.5, 2.0, -0.4], 2.0, material([1.0, 1.0, 1.0], [1.0, 1.0, 1.0], 0.0, 0.0)),
        sphere(
            [0.0, -100.0, 0.0],
            100.0,
            material([0.38, 0.16, 0.81], [0.38, 0.16, 0.81], 0.0, 0.0),
        ),
    ];
    assert_eq!(balls, want);
    let triangle = TriangleMesh {
        vertices: vec![v3(-3.0, 0.0, -3.0), v3(-1.0, 0.0, -3.0), v3(-2.0, 2.0, -3.0)],
        aabb: Aabb { min: v4(-3.0, 0.0, -3.0), max: v4(-1.0, 2.0, -3.0) },
        material: material([1.0, 0.5, 0.0], [1.0, 0.5, 0.0], 0.5, 0.0),
    };
    assert_eq!(meshes, vec![triangle]);
}

#[test]
fn cornell_preset_has_the_expected_values() {
    let (balls, meshes) = cornell_box();
    let want = vec![
        sphere([-3.0, 0.0, 0.0], 1.0, material([1.0, 1.0, 0.0], [1.0, 1.0, 0.0], 0.2, 0.2)),
        sphere([0.0, 0.0, 0.0], 1.0, material([1.0, 1.0, 1.0], [1.0, 1.0, 1.0], 0.0, 1.0)),
        sphere([3.0, 0.0, 0.0], 1.0, material([0.0, 1.0, 0.0], [0.0, 1.0, 0.0], 0.2, 0.1)),
    ];
    assert_eq!(balls, want);
    let none = [0.0, 0.0, 0.0];
    let grey = material([0.8, 0.8, 0.8], none, 0.0, 0.0);
    let l = -10.0;
    let h = 10.0;
    let want = vec![
        quad([[l, l, l], [h, l, l], [h, l, h], [l, l, h]], [l, l, l], [h, l, h], grey),
        quad([[l, h, l], [h, h, l], [h, h, h], [l, h, h]], [l, h, l], [h, h, h], grey),
        quad([[l, l, l], [h, l, l], [h, h, l], [l, h, l]], [l, l, l], [h, h, l], grey),
        quad(
            [[l, l, l], [l, l, h], [l, h, h], [l, h, l]],
            [l, l, l],
            [l, h, h],
            material([0.8, 0.0, 0.0], none, 0.0, 0.0),
        ),
        quad(
            [[h, l, l], [h, l, h], [h, h, h], [h, h, l]],
            [h, l, l],
            [h, h, h],
            material([0.0, 0.8, 0.0], none, 0.0, 0.0),
        ),
        quad([[l, l, h], [h, l, h], [h, h, h], [l, h, h]], [l, l, h], [h, h, h], grey),
        quad(
            [[-2.0, 9.9, -2.0], [2.0, 9.9, -2.0], [2.0, 9.9, 2.0], [-2.0, 9.9, 2.0]],
            [-2.0, 9.9, -2.0],
            [2.0, 10.0, 2.0],
            material([1.0, 1.0, 1.0], [1.0, 1.0, 1.0], 5.0, 0.0),
        ),
    ];
    assert_eq!(meshes, want);
}

#[test]
fn exactly_one_mesh_of_each_preset_gives_off_light() {
    let (_, meshes) = spheres();
    assert_eq!(meshes.iter().filter(|m| m.material.is_emissive()).count(), 1);
    let (_, meshes) = cornell_box();
    assert_eq!(meshes.iter().filter(|m| m.material.is_emissive()).count(), 1);
    assert!(meshes[6].material.is_emissive());
}

#[test]
fn presets_are_valid() {
    let (balls, meshes) = spheres();
    assert!(scene_is_valid(&balls, &meshes));
    let (balls, meshes) = cornell_box();
    assert!(scene_is_valid(&balls, &meshes));
    for mesh in &meshes {
        assert!(mesh.is_valid());
        assert!(mesh.aabb.is_valid());
        for v in &mesh.vertices {
            assert!(mesh.aabb.has_point(*v));
        }
    }
}

#[test]
fn names_select_presets() {
    assert_eq!(preset_by_name("cornell"), ScenePreset::Cornell);
    assert_eq!(preset_by_name("spheres"), ScenePreset::Spheres);
    assert_eq!(preset_by_name("teapot"), ScenePreset::Spheres);
    assert_eq!(preset_by_name(""), ScenePreset::Spheres);
    assert_eq!(preset_by_name("Cornell"), ScenePreset::Spheres);
    assert_eq!(preset_by_name("cornell "), ScenePreset::Spheres);
    assert_eq!(select_preset(Some("cornell")), ScenePreset::Cornell);
    assert_eq!(select_preset(Some("other")), ScenePreset::Spheres);
    assert_eq!(select_preset(None), ScenePreset::Spheres);
}

#[test]
fn build_scene_builds_the_preset() {
    assert_eq!(build_scene(ScenePreset::Cornell), cornell_box());
    assert_eq!(build_scene(ScenePreset::Spheres), spheres());
    assert_eq!(build_scene(preset_by_name("unknown")).0.len(), 6);
}

#[test]
fn invalid_shapes_are_told_apart() {
    let good = material([0.5, 0.5, 0.5], [0.0, 0.0, 0.0], 0.0, 0.5);
    assert!(good.is_valid());
    assert!(!good.is_emissive());
    assert!(!material([0.5, 0.5, 0.5], [0.0; 3], 0.0, 1.5).is_valid());
    assert!(!material([0.5, 0.5, 0.5], [0.0; 3], 0.0, -0.1).is_valid());
    assert!(!material([0.5, 0.5, 0.5], [0.0; 3], -1.0, 0.5).is_valid());
    assert!(!material([0.5, 0.5, 0.5], [0.0; 3], f32::NAN, 0.5).is_valid());
    assert!(material([0.5, 0.5, 0.5], [0.0; 3], 0.0, 1.0).is_valid());
    assert!(sphere([0.0; 3], 1.0, good).is_valid());
    assert!(!sphere([0.0; 3], 0.0, good).is_valid());
    assert!(!sphere([0.0; 3], -1.0, good).is_valid());
    assert!(!sphere([0.0; 3], f32::NAN, good).is_valid());

    let mut mesh = quad(
        [[0.0, 0.0, 0.0], [1.0, 0.0, 0.0], [1.0, 1.0, 0.0], [0.0, 1.0, 0.0]],
        [0.0, 0.0, 0.0],
        [1.0, 1.0, 0.0],
        good,
    );
    assert!(mesh.is_valid());
    mesh.vertices.pop();
    assert!(!mesh.is_valid());
    assert_eq!(mesh.triangle_count(), 1);
    mesh.vertices.push(v3(2.0, 0.0, 0.0));
    assert!(!mesh.is_valid());
    mesh.vertices.pop();
    mesh.vertices.push(v3(0.5, 0.5, 0.0));
    assert!(mesh.is_valid());
    mesh.aabb = Aabb { min: v4(1.0, 0.0, 0.0), max: v4(0.0, 1.0, 0.0) };
    assert!(!mesh.aabb.is_valid());
    assert!(!mesh.is_valid());
    assert!(!scene_is_valid(&vec![], &vec![mesh]));
    assert!(scene_is_valid(&vec![], &vec![]));
    assert!(!scene_is_valid(&vec![sphere([0.0; 3], 0.0, good)], &vec![]));
}
