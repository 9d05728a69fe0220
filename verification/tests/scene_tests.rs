use raytracer::hit::HitRecord;
use raytracer::material::Material;
use raytracer::objects::{Cuboid, Plain, SceneObject, Sphere};
use raytracer::rng::Rng;
use raytracer::scene::Scene;
use raytracer::vec3::{QuatBits, Vec2Bits, Vec3Bits};

fn v3(x: f32, y: f32, z: f32) -> Vec3Bits {
    Vec3Bits { x: x.to_bits(), y: y.to_bits(), z: z.to_bits() }
}

fn mat(emissive: bool) -> Material {
    Material {
        is_emissive: emissive,
        emission: v3(if emissive { 10.0 } else { 0.0 }, 0.0, 0.0),
        albedo: v3(1.0, 1.0, 1.0),
        subsurface: 0.0f32.to_bits(),
        metallic: 0.0f32.to_bits(),
        specular: 0.0f32.to_bits(),
        specular_tint: v3(1.0, 1.0, 1.0),
        roughness: 1.0f32.to_bits(),
        anisotropic: 0.0f32.to_bits(),
        sheen: 0.0f32.to_bits(),
        sheen_tint: v3(0.0, 0.0, 0.0),
        clearcoat: 0.0f32.to_bits(),
        clearcoat_gloss: 0.0f32.to_bits(),
    }
}

fn sphere(emissive: bool) -> SceneObject {
    SceneObject::Sphere(Sphere { center: v3(0.0, 0.0, 0.0), radius: 1.0f32.to_bits(), material: mat(emissive) })
}

fn cuboid(emissive: bool) -> SceneObject {
    SceneObject::Cuboid(Cuboid {
        center: v3(0.0, 0.0, 0.0),
        size: v3(1.0, 1.0, 1.0),
        rotation: QuatBits { x: 0, y: 0, z: 0, w: 1.0f32.to_bits() },
        material: mat(emissive),
    })
}

fn plain(emissive: bool) -> SceneObject {
    SceneObject::Plain(Plain {
        center: v3(0.0, 1.0, 0.0),
        normal: v3(0.0, -1.0, 0.0),
        size: Vec2Bits { x: 0.5f32.to_bits(), y: 0.5f32.to_bits() },
        material: mat(emissive),
    })
}

fn hit_at(t: f32, index: usize) -> HitRecord {
    HitRecord {
        point: v3(0.0, 0.0, 0.0),
        normal: v3(0.0, 1.0, 0.0),
        t: t.to_bits(),
        front_face: true,
        object_index: index,
    }
}

#[test]
fn light_count_tracks_emissive_materials() {
    let mut scene = Scene::new(String::from("test"));
    assert_eq!(scene.light_count(), 0);
    scene.add_object(sphere(false));
    assert_eq!(scene.light_count(), 0);
    scene.add_object(plain(true));
    assert_eq!(scene.light_count(), 1);
    scene.add_object(cuboid(false));
    scene.add_object(sphere(true));
    assert_eq!(scene.light_count(), 2);
    assert_eq!(scene.objects().len(), 4);
    assert_eq!(scene.name().as_str(), "test");
}

#[test]
fn material_accessor_reads_each_shape() {
    assert!(sphere(true).material().is_emissive);
    assert!(cuboid(true).material().is_emissive);
    assert!(plain(true).material().is_emissive);
    assert!(!sphere(false).material().is_emissive);
    assert!(!cuboid(false).is_emissive());
    assert!(!plain(false).is_emissive());
}

#[test]
fn pick_light_returns_the_kth_emitter_in_order() {
    let mut scene = Scene::new(String::from("lights"));
    scene.add_object(sphere(false)); // 0
    scene.add_object(plain(true)); // 1: first emitter
    scene.add_object(cuboid(false)); // 2
    scene.add_object(sphere(true)); // 3: second emitter
    assert_eq!(scene.pick_light(0), Some(1));
    assert_eq!(scene.pick_light(1), Some(3));
    assert_eq!(scene.pick_light(2), None);
}

#[test]
fn pick_light_on_a_dark_scene_is_none() {
    let mut scene = Scene::new(String::from("dark"));
    scene.add_object(sphere(false));
    assert_eq!(scene.pick_light(0), None);
}

#[test]
fn choose_light_hits_an_emitter_or_reports_none() {
    let mut dark = Scene::new(String::from("dark"));
    dark.add_object(cuboid(false));
    let mut rng = Rng::for_sample(3, 0);
    assert_eq!(dark.choose_light(&mut rng), None);

    let mut lit = Scene::new(String::from("lit"));
    lit.add_object(sphere(false));
    lit.add_object(plain(true));
    lit.add_object(sphere(true));
    for sample in 0..32u64 {
        let mut rng = Rng::for_sample(7, sample);
        let picked = lit.choose_light(&mut rng).expect("scene has emitters");
        assert!(picked == 1 || picked == 2);
    }
}

#[test]
fn choose_light_follows_the_stream_draw() {
    let mut lit = Scene::new(String::from("lit"));
    lit.add_object(sphere(false));
    lit.add_object(plain(true));
    lit.add_object(cuboid(false));
    lit.add_object(sphere(true));

    for sample in 0..16u64 {
        let mut used = Rng::for_sample(11, sample);
        let mut probe = Rng::for_sample(11, sample);
        let k = probe.next_below(lit.light_count() as u64);
        let picked = lit.choose_light(&mut used).expect("scene has emitters");
        assert_eq!(Some(picked), lit.pick_light(k as usize));
    }
}

#[test]
fn closest_hit_takes_the_smallest_t() {
    let mut scene = Scene::new(String::from("s"));
    scene.add_object(sphere(false));
    scene.add_object(cuboid(false));
    scene.add_object(plain(false));
    let candidates = vec![Some(hit_at(3.0, 0)), Some(hit_at(0.5, 1)), Some(hit_at(2.0, 2))];
    let best = scene.hit(&candidates).expect("some candidate");
    assert_eq!(best.object_index, 1);
    assert_eq!(best.t, 0.5f32.to_bits());
}

#[test]
fn closest_hit_breaks_exact_ties_toward_the_earlier_primitive() {
    let mut scene = Scene::new(String::from("s"));
    scene.add_object(sphere(false));
    scene.add_object(cuboid(false));
    let candidates = vec![Some(hit_at(1.25, 0)), Some(hit_at(1.25, 1))];
    let best = scene.hit(&candidates).expect("some candidate");
    assert_eq!(best.object_index, 0);
}

#[test]
fn closest_hit_skips_missing_candidates() {
    let mut scene = Scene::new(String::from("s"));
    scene.add_object(sphere(false));
    scene.add_object(cuboid(false));
    scene.add_object(plain(false));
    let candidates = vec![None, Some(hit_at(7.5, 1)), None];
    let best = scene.hit(&candidates).expect("some candidate");
    assert_eq!(best.object_index, 1);
}

#[test]
fn closest_hit_of_all_misses_is_none() {
    let mut scene = Scene::new(String::from("s"));
    scene.add_object(sphere(false));
    scene.add_object(plain(false));
    let candidates = vec![None, None];
    assert!(scene.hit(&candidates).is_none());

    let empty = Scene::new(String::from("empty"));
    let no_candidates: Vec<Option<HitRecord>> = vec![];
    assert!(empty.hit(&no_candidates).is_none());
}
