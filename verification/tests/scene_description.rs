use raytracing::hittables::bounding::aabb::Aabb;
use raytracing::hittables::hittable::Hittable;
use raytracing::hittables::sphere::Sphere;
use raytracing::hittables::triangle::Triangle;
use raytracing::materials::emission::Emission;
use raytracing::materials::lambertian::Lambertian;
use raytracing::materials::material::{corrected_normal, Material};
use raytracing::materials::reflective::Reflective;
use raytracing::materials::refractive::{Refractive, RefractionRatio};
use raytracing::misc::hit_record::HitRecord;
use raytracing::misc::ray::Ray;
use raytracing::misc::scalar::Scalar;
use raytracing::misc::scene::Scene;
use raytracing::misc::tracer::Bounce;
use raytracing::misc::vector::Vec3;
use raytracing::scene::camera_info::CameraInfo;
use raytracing::scene::emission_info::EmissionInfo;
use raytracing::scene::hittable_info::HittableInfo;
use raytracing::scene::lambertian_info::LambertianInfo;
use raytracing::scene::material_info::MaterialInfo;
use raytracing::scene::reflective_info::ReflectiveInfo;
use raytracing::scene::refractive_info::RefractiveInfo;
use raytracing::scene::scene_info::{SceneError, SceneInfo};
use raytracing::scene::sphere_info::SphereInfo;
use raytracing::scene::triangle_info::TriangleInfo;
use raytracing::scene::xy_rect_info::XyRectInfo;
use raytracing::scene::xz_rect_info::XzRectInfo;
use raytracing::scene::yz_rect_info::YzRectInfo;

fn scalar(value: f32) -> Scalar {
    Scalar::from_bits(value.to_bits())
}

fn vector(x: f32, y: f32, z: f32) -> Vec3 {
    Vec3::new(scalar(x), scalar(y), scalar(z))
}

struct Built {
    name: String,
    material: usize,
}

impl Hittable for Built {
    fn hit(&self, _: &Ray, _: Scalar, _: Scalar, _: &mut HitRecord) -> bool {
        false
    }

    fn bounding_box(&self) -> Option<Aabb> {
        None
    }
}

fn build(info: SceneInfo) -> Result<Scene<CameraInfo, String, Built>, SceneError> {
    info.validate()?;
    Ok(info.build(
        |camera: &CameraInfo| *camera,
        |material: &MaterialInfo| material.get_name().to_string(),
        |hittable: &HittableInfo, place: usize| Built {
            name: hittable.get_name().to_string(),
            material: place,
        },
    ))
}

fn described() -> SceneInfo {
    SceneInfo::new()
        .camera(
            vector(0.0, 2.4, 0.0),
            vector(0.0, 0.0, 0.0),
            vector(-1.0, 0.0, 0.0),
            scalar(70.0),
            scalar(800.0 / 600.0),
        )
        .emission("lantern", vector(1.0, 0.9, 0.8), scalar(1.0))
        .lambertian("white", vector(1.0, 1.0, 1.0))
        .reflective("mirror", vector(1.0, 1.0, 1.0), scalar(1000.0))
        .refractive("glass", vector(1.0, 1.0, 1.0), scalar(1.5))
        .yz_square("light", "lantern", vector(0.999, 0.0, 0.0), scalar(1.6))
        .xz_square("back", "mirror", vector(0.0, -1.0, 0.0), scalar(2.0))
        .xy_square("floor", "white", vector(0.0, 0.0, -1.0), scalar(2.0))
        .sphere("ball", "glass", vector(0.0, 0.0, -0.5), scalar(0.5))
        .triangle(
            "wedge",
            "white",
            vector(0.0, 0.0, 0.0),
            vector(1.0, 0.0, 0.0),
            vector(0.0, 1.0, 0.0),
        )
}

#[test]
fn description_keeps_declarations_in_order() {
    let info = described();
    let names: Vec<&str> = info.get_materials().iter().map(|m| m.get_name()).collect();
    assert_eq!(names, vec!["lantern", "white", "mirror", "glass"]);
    let surfaces: Vec<(&str, &str)> = info
        .get_hittables()
        .iter()
        .map(|h| (h.get_name(), h.get_material_name()))
        .collect();
    assert_eq!(
        surfaces,
        vec![
            ("light", "lantern"),
            ("back", "mirror"),
            ("floor", "white"),
            ("ball", "glass"),
            ("wedge", "white"),
        ]
    );
    assert_eq!(
        *info.get_camera(),
        Some(CameraInfo::new(
            vector(0.0, 2.4, 0.0),
            vector(0.0, 0.0, 0.0),
            vector(-1.0, 0.0, 0.0),
            scalar(70.0),
            scalar(800.0 / 600.0),
        ))
    );
    assert!(matches!(&info.get_hittables()[0], HittableInfo::YzRect(r) if r.position == vector(0.999, 0.0, 0.0) && r.edge_length == scalar(1.6)));
    assert!(matches!(&info.get_hittables()[1], HittableInfo::XzRect(r) if r.edge_length == scalar(2.0)));
    assert!(matches!(&info.get_hittables()[2], HittableInfo::XyRect(r) if r.position == vector(0.0, 0.0, -1.0)));
    assert!(matches!(&info.get_hittables()[3], HittableInfo::Sphere(s) if s.radius == scalar(0.5)));
    assert!(matches!(&info.get_hittables()[4], HittableInfo::Triangle(t) if t.point_two == vector(1.0, 0.0, 0.0)));
    assert!(matches!(&info.get_materials()[0], MaterialInfo::Emission(e) if e.power == scalar(1.0)));
    assert!(matches!(&info.get_materials()[2], MaterialInfo::Reflective(r) if r.reflectiveness == scalar(1000.0)));
    assert!(matches!(&info.get_materials()[3], MaterialInfo::Refractive(r) if r.index_of_refraction == scalar(1.5)));
}

#[test]
fn empty_description_has_nothing() {
    let info = SceneInfo::new();
    assert!(info.get_camera().is_none());
    assert!(info.get_materials().is_empty());
    assert!(info.get_hittables().is_empty());
    assert_eq!(info.find_material("white"), None);
}

#[test]
fn material_of_the_same_name_replaces_the_earlier_one() {
    let info = SceneInfo::new()
        .lambertian("a", vector(1.0, 0.0, 0.0))
        .lambertian("b", vector(0.0, 1.0, 0.0))
        .emission("a", vector(0.0, 0.0, 1.0), scalar(2.0))
        .lambertian("c", vector(0.5, 0.5, 0.5));
    let names: Vec<&str> = info.get_materials().iter().map(|m| m.get_name()).collect();
    assert_eq!(names, vec!["a", "b", "c"]);
    assert!(matches!(&info.get_materials()[0], MaterialInfo::Emission(e) if e.color == vector(0.0, 0.0, 1.0) && e.power == scalar(2.0)));
    assert_eq!(info.find_material("a"), Some(0));
    assert_eq!(info.find_material("b"), Some(1));
    assert_eq!(info.find_material("c"), Some(2));
    assert_eq!(info.find_material("d"), None);
    assert_eq!(info.find_material(""), None);
    assert_eq!(info.find_material("A"), None);
}

#[test]
fn later_camera_replaces_the_earlier_one() {
    let info = SceneInfo::new()
        .camera(vector(1.0, 1.0, 1.0), vector(0.0, 0.0, 0.0), vector(0.0, 1.0, 0.0), scalar(40.0), scalar(1.0))
        .camera(vector(2.0, 2.0, 2.0), vector(0.0, 0.0, 0.0), vector(0.0, 0.0, 1.0), scalar(90.0), scalar(2.0));
    assert_eq!(
        *info.get_camera(),
        Some(CameraInfo::new(
            vector(2.0, 2.0, 2.0),
            vector(0.0, 0.0, 0.0),
            vector(0.0, 0.0, 1.0),
            scalar(90.0),
            scalar(2.0),
        ))
    );
}

#[test]
fn build_resolves_every_material_name_to_its_place() {
    let scene = build(described()).ok().unwrap();
    assert_eq!(scene.get_camera().v_fov, scalar(70.0));
    assert_eq!(*scene.get_materials(), vec!["lantern", "white", "mirror", "glass"]);
    let built: Vec<(&str, usize)> = scene
        .get_hittable_list()
        .hittables
        .iter()
        .map(|h| (h.name.as_str(), h.material))
        .collect();
    assert_eq!(
        built,
        vec![("light", 0), ("back", 2), ("floor", 1), ("ball", 3), ("wedge", 1)]
    );
}

#[test]
fn complete_description_is_valid() {
    assert!(described().validate().is_ok());
    let bare = SceneInfo::new().camera(
        vector(0.0, 0.0, 0.0),
        vector(0.0, 0.0, 1.0),
        vector(0.0, 1.0, 0.0),
        scalar(60.0),
        scalar(1.0),
    );
    assert!(bare.validate().is_ok());
    assert!(matches!(SceneInfo::new().validate(), Err(SceneError::MissingCamera)));
    let late = described().sphere("lost", "velvet", vector(0.0, 0.0, 0.0), scalar(1.0));
    assert!(matches!(late.validate(), Err(SceneError::MissingMaterial { name }) if name == "velvet"));
    let mended = late.lambertian("velvet", vector(0.5, 0.0, 0.0));
    assert!(mended.validate().is_ok());
}

#[test]
fn build_without_a_camera_fails() {
    let info = SceneInfo::new()
        .lambertian("white", vector(1.0, 1.0, 1.0))
        .sphere("ball", "white", vector(0.0, 0.0, 0.0), scalar(1.0));
    let error = build(info).err().unwrap();
    assert!(matches!(error, SceneError::MissingCamera));
    assert_eq!(error.message(), "Camera is required");
    let nothing_else = SceneInfo::new().sphere("ball", "nowhere", vector(0.0, 0.0, 0.0), scalar(1.0));
    assert!(matches!(build(nothing_else).err().unwrap(), SceneError::MissingCamera));
}

#[test]
fn build_reports_the_first_missing_material() {
    let info = described()
        .sphere("lost", "velvet", vector(0.0, 0.0, 0.0), scalar(1.0))
        .sphere("lost too", "silk", vector(0.0, 0.0, 0.0), scalar(1.0));
    let error = build(info).err().unwrap();
    assert!(matches!(&error, SceneError::MissingMaterial { name } if name == "velvet"));
    assert_eq!(error.message(), "Cannot find material with name \"velvet\"");
}

#[test]
fn build_of_an_empty_scene_needs_only_the_camera() {
    let info = SceneInfo::new().camera(
        vector(0.0, 0.0, 0.0),
        vector(0.0, 0.0, 1.0),
        vector(0.0, 1.0, 0.0),
        scalar(60.0),
        scalar(1.0),
    );
    let scene = build(info).ok().unwrap();
    assert!(scene.get_materials().is_empty());
    assert!(scene.get_hittable_list().hittables.is_empty());
}

#[test]
fn scene_hands_out_its_parts() {
    let mut scene = build(described()).ok().unwrap();
    scene.get_materials_mut().push("extra".to_string());
    assert_eq!(scene.get_materials().len(), 5);
    scene.get_camera_mut().v_fov = scalar(45.0);
    assert_eq!(scene.get_camera().v_fov, scalar(45.0));
    scene.get_hittable_list_mut().hittables.clear();
    assert!(scene.get_hittable_list().hittables.is_empty());
}

#[test]
fn descriptions_are_cloned_whole() {
    let info = described();
    let copy = info.clone();
    assert_eq!(copy.get_materials().len(), info.get_materials().len());
    assert_eq!(copy.get_hittables().len(), info.get_hittables().len());
    assert_eq!(*copy.get_camera(), *info.get_camera());
    let first = build(info).ok().unwrap();
    let second = build(copy).ok().unwrap();
    assert_eq!(first.get_materials(), second.get_materials());
}

#[test]
fn single_descriptions_keep_their_fields() {
    let sphere = SphereInfo::new("ball", "glass", vector(1.0, 2.0, 3.0), scalar(0.5));
    assert_eq!(sphere.get_name(), "ball");
    assert_eq!(sphere.get_material_name(), "glass");
    assert_eq!(*sphere.build(4), Sphere::new(vector(1.0, 2.0, 3.0), scalar(0.5), 4));
    assert_eq!(SphereInfo::boxed("b", "m", vector(0.0, 0.0, 0.0), scalar(1.0)).get_name(), "b");
    let triangle = TriangleInfo::new(
        "wedge",
        "white",
        vector(0.0, 0.0, 0.0),
        vector(1.0, 0.0, 0.0),
        vector(0.0, 1.0, 0.0),
    );
    assert_eq!(triangle.get_name(), "wedge");
    assert_eq!(triangle.get_material_name(), "white");
    assert_eq!(
        *triangle.build(2),
        Triangle::new(vector(0.0, 0.0, 0.0), vector(1.0, 0.0, 0.0), vector(0.0, 1.0, 0.0), 2)
    );
    assert_eq!(
        TriangleInfo::boxed("t", "m", vector(0.0, 0.0, 0.0), vector(0.0, 0.0, 0.0), vector(0.0, 0.0, 0.0))
            .get_material_name(),
        "m"
    );
    let xy = XyRectInfo::square_new("floor", "white", vector(0.0, 0.0, -1.0), scalar(2.0));
    assert_eq!((xy.get_name(), xy.get_material_name()), ("floor", "white"));
    assert_eq!(xy.edge_length, scalar(2.0));
    let xz = XzRectInfo::square_boxed("back", "mirror", vector(0.0, -1.0, 0.0), scalar(2.0));
    assert_eq!((xz.get_name(), xz.get_material_name()), ("back", "mirror"));
    let yz = YzRectInfo::square_boxed("left", "green", vector(1.0, 0.0, 0.0), scalar(2.0));
    assert_eq!((yz.get_name(), yz.get_material_name()), ("left", "green"));
    assert_eq!(yz.position, vector(1.0, 0.0, 0.0));
    assert_eq!(XyRectInfo::square_boxed("a", "b", vector(0.0, 0.0, 0.0), scalar(1.0)).get_name(), "a");
    assert_eq!(XzRectInfo::square_new("a", "b", vector(0.0, 0.0, 0.0), scalar(1.0)).get_name(), "a");
    assert_eq!(YzRectInfo::square_new("a", "b", vector(0.0, 0.0, 0.0), scalar(1.0)).get_name(), "a");
}

#[test]
fn material_descriptions_build_their_materials() {
    let emission = EmissionInfo::new("lantern", vector(1.0, 0.5, 0.25), scalar(3.0));
    let lambertian = LambertianInfo::new("white", vector(1.0, 1.0, 1.0));
    let reflective = ReflectiveInfo::new("mirror", vector(0.9, 0.9, 0.9), scalar(1000.0));
    let refractive = RefractiveInfo::new("glass", vector(1.0, 1.0, 1.0), scalar(1.5));
    assert_eq!(emission.get_name(), "lantern");
    assert_eq!(lambertian.get_name(), "white");
    assert_eq!(reflective.get_name(), "mirror");
    assert_eq!(refractive.get_name(), "glass");
    assert_eq!(EmissionInfo::boxed("e", vector(0.0, 0.0, 0.0), scalar(1.0)).get_name(), "e");
    assert_eq!(LambertianInfo::boxed("l", vector(0.0, 0.0, 0.0)).get_name(), "l");
    assert_eq!(ReflectiveInfo::boxed("r", vector(0.0, 0.0, 0.0), scalar(1.0)).get_name(), "r");
    assert_eq!(RefractiveInfo::boxed("g", vector(0.0, 0.0, 0.0), scalar(1.0)).get_name(), "g");
    assert_eq!(
        MaterialInfo::Emission(emission).build(),
        Material::Emission(Emission::new(vector(1.0, 0.5, 0.25), scalar(3.0)))
    );
    assert_eq!(
        MaterialInfo::Lambertian(lambertian).build(),
        Material::Lambertian(Lambertian::new(vector(1.0, 1.0, 1.0)))
    );
    assert_eq!(
        MaterialInfo::Reflective(reflective).build(),
        Material::Reflective(Reflective::new(vector(0.9, 0.9, 0.9), scalar(1000.0)))
    );
    assert_eq!(
        MaterialInfo::Refractive(refractive).build(),
        Material::Refractive(Refractive::new(vector(1.0, 1.0, 1.0), scalar(1.5)))
    );
}

#[test]
fn only_lights_end_a_path() {
    let albedo = vector(0.5, 0.6, 0.7);
    assert_eq!(
        Material::Emission(Emission::new(albedo, scalar(2.0))).scatter_outcome(),
        Bounce::Absorbed
    );
    assert_eq!(Material::Lambertian(Lambertian::new(albedo)).scatter_outcome(), Bounce::Scattered);
    assert_eq!(
        Material::Reflective(Reflective::new(albedo, scalar(10.0))).scatter_outcome(),
        Bounce::Scattered
    );
    assert_eq!(
        Material::Refractive(Refractive::new(albedo, scalar(1.5))).scatter_outcome(),
        Bounce::Scattered
    );
    assert_eq!(Lambertian::new(albedo).get_attenuation(), albedo);
    assert_eq!(Reflective::new(albedo, scalar(10.0)).get_attenuation(), albedo);
    assert_eq!(Refractive::new(albedo, scalar(1.5)).get_attenuation(), albedo);
}

#[test]
fn scattering_normal_faces_the_arriving_ray() {
    let normal = vector(0.0, 1.0, -0.0);
    assert_eq!(corrected_normal(&normal, scalar(0.3)), vector(-0.0, -1.0, 0.0));
    assert_eq!(corrected_normal(&normal, scalar(-0.3)), normal);
    assert_eq!(corrected_normal(&normal, scalar(0.0)), normal);
    assert_eq!(corrected_normal(&normal, scalar(-0.0)), normal);
    assert_eq!(corrected_normal(&normal, scalar(f32::NAN)), normal);
}

#[test]
fn glass_bends_by_the_reciprocal_index_on_a_front_face() {
    assert_eq!(Refractive::refraction_ratio(true), RefractionRatio::Reciprocal);
    assert_eq!(Refractive::refraction_ratio(false), RefractionRatio::Index);
}

#[test]
fn glass_reflects_for_samples_above_the_threshold() {
    assert!(!Refractive::reflects(scalar(0.0)));
    assert!(!Refractive::reflects(scalar(0.5)));
    assert!(!Refractive::reflects(scalar(0.85)));
    assert!(Refractive::reflects(scalar(0.850_000_1)));
    assert!(Refractive::reflects(scalar(0.999)));
    assert!(!Refractive::reflects(scalar(f32::NAN)));
    let mut reflected = 0;
    for i in 0..1000 {
        if Refractive::reflects(scalar(i as f32 / 1000.0)) {
            reflected += 1;
        }
    }
    assert_eq!(reflected, 149);
}
