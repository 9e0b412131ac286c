//! The description of a whole scene, and how a scene is built from it.

use vstd::prelude::*;
use vstd::string::*;
use crate::hittables::hittable::Hittable;
use crate::hittables::hittable_list::HittableList;
use crate::misc::scalar::Scalar;
use crate::misc::scene::Scene;
use crate::misc::vector::Vec3;
use crate::scene::camera_info::CameraInfo;
use crate::scene::emission_info::EmissionInfo;
use crate::scene::hittable_info::HittableInfo;
use crate::scene::lambertian_info::LambertianInfo;
use crate::scene::material_info::MaterialInfo;
use crate::scene::reflective_info::ReflectiveInfo;
use crate::scene::refractive_info::RefractiveInfo;
use crate::scene::sphere_info::SphereInfo;
use crate::scene::triangle_info::TriangleInfo;
use crate::scene::xy_rect_info::XyRectInfo;
use crate::scene::xz_rect_info::XzRectInfo;
use crate::scene::yz_rect_info::YzRectInfo;

verus! {

/// Why a scene could not be built from its description.
#[derive(Clone, Debug)]
pub enum SceneError {
    /// The description has no camera.
    MissingCamera,
    /// A surface names a material that the description does not have.
    MissingMaterial { name: String },
}

impl SceneError {
    /// The text of the error.
    pub open spec fn text(self) -> Seq<char> {
        match self {
            SceneError::MissingCamera => "Camera is required"@,
            SceneError::MissingMaterial { name } => "Cannot find material with name \""@ + name@
                + "\""@,
        }
    }

    /// The error as text for a reader.
    pub fn message(&self) -> (message: String)
        ensures
            message@ == self.text(),
    {
        match self {
            SceneError::MissingCamera => "Camera is required".to_owned(),
            SceneError::MissingMaterial { name } => {
                let mut message = "Cannot find material with name \"".to_owned();
                message.append(name.as_str());
                message.append("\"");
                message
            },
        }
    }
}

/// Whether a material called `name` is among the materials.
pub open spec fn has_material(materials: Seq<MaterialInfo>, name: Seq<char>) -> bool {
    exists|i: int| 0 <= i < materials.len() && (#[trigger] materials[i]).name() == name
}

/// Whether `at` is the place of the first material called `name`.
pub open spec fn is_place_of(materials: Seq<MaterialInfo>, name: Seq<char>, at: int) -> bool {
    &&& 0 <= at < materials.len()
    &&& materials[at].name() == name
    &&& forall|k: int| 0 <= k < at ==> (#[trigger] materials[k]).name() != name
}

/// The materials after one more is declared: a material of the same name is
/// replaced where it stands, a new name goes to the end.
pub open spec fn declared(materials: Seq<MaterialInfo>, info: MaterialInfo) -> Seq<MaterialInfo> {
    if has_material(materials, info.name()) {
        let at = choose|at: int| is_place_of(materials, info.name(), at);
        materials.update(at, info)
    } else {
        materials.push(info)
    }
}

/// Whether no two of the materials have the same name.
pub open spec fn distinct_names(materials: Seq<MaterialInfo>) -> bool {
    forall|i: int, j: int|
        0 <= i < j < materials.len() ==> (#[trigger] materials[i]).name() != (
        #[trigger] materials[j]).name()
}

/// A camera, materials by name, and surfaces in the order of their
/// declaration.  Declaring materials one by one never gives two of them the
/// same name.
#[derive(Clone, Debug)]
pub struct SceneInfo {
    camera: Option<CameraInfo>,
    materials: Vec<MaterialInfo>,
    hittables: Vec<HittableInfo>,
}

impl SceneInfo {
    pub closed spec fn camera_info(&self) -> Option<CameraInfo> {
        self.camera
    }

    pub closed spec fn materials(&self) -> Seq<MaterialInfo> {
        self.materials@
    }

    pub closed spec fn hittables(&self) -> Seq<HittableInfo> {
        self.hittables@
    }

    /// Whether every surface names a material that is there.
    pub open spec fn resolved(&self) -> bool {
        forall|j: int|
            0 <= j < self.hittables().len() ==> has_material(
                self.materials(),
                (#[trigger] self.hittables()[j]).material_name(),
            )
    }

    /// Whether `j` is the first surface whose material is not there.
    pub open spec fn is_first_unresolved(&self, j: int) -> bool {
        &&& 0 <= j < self.hittables().len()
        &&& !has_material(self.materials(), self.hittables()[j].material_name())
        &&& forall|k: int|
            0 <= k < j ==> has_material(
                self.materials(),
                (#[trigger] self.hittables()[k]).material_name(),
            )
    }

    /// An empty description.
    pub fn new() -> (info: Self)
        ensures
            info.camera_info() is None,
            info.materials().len() == 0,
            info.hittables().len() == 0,
            distinct_names(info.materials()),
    {
        SceneInfo { camera: None, materials: Vec::new(), hittables: Vec::new() }
    }

    pub fn get_camera(&self) -> (camera: &Option<CameraInfo>)
        ensures
            *camera == self.camera_info(),
    {
        &self.camera
    }

    pub fn get_materials(&self) -> (materials: &Vec<MaterialInfo>)
        ensures
            materials@ == self.materials(),
    {
        &self.materials
    }

    pub fn get_hittables(&self) -> (hittables: &Vec<HittableInfo>)
        ensures
            hittables@ == self.hittables(),
    {
        &self.hittables
    }

    /// Sets the camera, in place of any that was set before.
    pub fn camera(
        self,
        origin: Vec3,
        center: Vec3,
        up: Vec3,
        v_fov: Scalar,
        aspect_ratio: Scalar,
    ) -> (info: Self)
        ensures
            info.camera_info() == Some(CameraInfo { origin, center, up, v_fov, aspect_ratio }),
            info.materials() == self.materials(),
            info.hittables() == self.hittables(),
    {
        let SceneInfo { camera: _, materials, hittables } = self;
        SceneInfo {
            camera: Some(CameraInfo::new(origin, center, up, v_fov, aspect_ratio)),
            materials,
            hittables,
        }
    }

    /// Appends a surface.
    pub fn hittable(self, hittable: HittableInfo) -> (info: Self)
        ensures
            info.camera_info() == self.camera_info(),
            info.materials() == self.materials(),
            info.hittables() == self.hittables().push(hittable),
    {
        let SceneInfo { camera, materials, mut hittables } = self;
        hittables.push(hittable);
        SceneInfo { camera, materials, hittables }
    }

    /// The place of the material called `name`, if there is one.
    pub fn find_material(&self, name: &str) -> (place: Option<usize>)
        ensures
            place is Some == has_material(self.materials(), name@),
            place is Some ==> is_place_of(self.materials(), name@, place->Some_0 as int),
    {
        let wanted: String = name.to_owned();
        let mut i: usize = 0;
        while i < self.materials.len()
            invariant
                0 <= i <= self.materials@.len(),
                wanted@ == name@,
                forall|k: int| 0 <= k < i ==> (#[trigger] self.materials@[k]).name() != name@,
            decreases self.materials@.len() - i,
        {
            let candidate: String = self.materials[i].get_name().to_owned();
            if candidate == wanted {
                return Some(i);
            }
            i = i + 1;
        }
        None
    }

    /// Declares a material: one of the same name is replaced, a new name is
    /// added.
    pub fn material(self, material: MaterialInfo) -> (info: Self)
        ensures
            info.camera_info() == self.camera_info(),
            info.hittables() == self.hittables(),
            info.materials() == declared(self.materials(), material),
            distinct_names(self.materials()) ==> distinct_names(info.materials()),
    {
        let place = self.find_material(material.get_name());
        let SceneInfo { camera, mut materials, hittables } = self;
        match place {
            Some(at) => {
                proof {
                    lemma_place_is_unique(materials@, material.name(), at as int);
                }
                materials[at] = material;
            },
            None => {
                materials.push(material);
            },
        }
        SceneInfo { camera, materials, hittables }
    }

    /// Appends a sphere.
    pub fn sphere(
        self,
        name: &str,
        material_name: &str,
        center: Vec3,
        radius: Scalar,
    ) -> (info: Self)
        ensures
            info.camera_info() == self.camera_info(),
            info.materials() == self.materials(),
            info.hittables().len() == self.hittables().len() + 1,
            info.hittables().drop_last() == self.hittables(),
            info.hittables().last() matches HittableInfo::Sphere(s) && s.name@ == name@
                && s.material_name@ == material_name@ && s.center == center && s.radius == radius,
    {
        let added = HittableInfo::Sphere(SphereInfo::new(name, material_name, center, radius));
        let info = self.hittable(added);
        assert(info.hittables().drop_last() =~= self.hittables());
        info
    }

    /// Appends a square in a plane of constant z.
    pub fn xy_square(
        self,
        name: &str,
        material_name: &str,
        position: Vec3,
        edge_length: Scalar,
    ) -> (info: Self)
        ensures
            info.camera_info() == self.camera_info(),
            info.materials() == self.materials(),
            info.hittables().len() == self.hittables().len() + 1,
            info.hittables().drop_last() == self.hittables(),
            info.hittables().last() matches HittableInfo::XyRect(s) && s.name@ == name@
                && s.material_name@ == material_name@ && s.position == position && s.edge_length
                == edge_length,
    {
        let added = HittableInfo::XyRect(
            XyRectInfo::square_new(name, material_name, position, edge_length),
        );
        let info = self.hittable(added);
        assert(info.hittables().drop_last() =~= self.hittables());
        info
    }

    /// Appends a square in a plane of constant y.
    pub fn xz_square(
        self,
        name: &str,
        material_name: &str,
        position: Vec3,
        edge_length: Scalar,
    ) -> (info: Self)
        ensures
            info.camera_info() == self.camera_info(),
            info.materials() == self.materials(),
            info.hittables().len() == self.hittables().len() + 1,
            info.hittables().drop_last() == self.hittables(),
            info.hittables().last() matches HittableInfo::XzRect(s) && s.name@ == name@
                && s.material_name@ == material_name@ && s.position == position && s.edge_length
                == edge_length,
    {
        let added = HittableInfo::XzRect(
            XzRectInfo::square_new(name, material_name, position, edge_length),
        );
        let info = self.hittable(added);
        assert(info.hittables().drop_last() =~= self.hittables());
        info
    }

    /// Appends a square in a plane of constant x.
    pub fn yz_square(
        self,
        name: &str,
        material_name: &str,
        position: Vec3,
        edge_length: Scalar,
    ) -> (info: Self)
        ensures
            info.camera_info() == self.camera_info(),
            info.materials() == self.materials(),
            info.hittables().len() == self.hittables().len() + 1,
            info.hittables().drop_last() == self.hittables(),
            info.hittables().last() matches HittableInfo::YzRect(s) && s.name@ == name@
                && s.material_name@ == material_name@ && s.position == position && s.edge_length
                == edge_length,
    {
        let added = HittableInfo::YzRect(
            YzRectInfo::square_new(name, material_name, position, edge_length),
        );
        let info = self.hittable(added);
        assert(info.hittables().drop_last() =~= self.hittables());
        info
    }

    /// Appends a triangle.
    pub fn triangle(
        self,
        name: &str,
        material_name: &str,
        point_one: Vec3,
        point_two: Vec3,
        point_three: Vec3,
    ) -> (info: Self)
        ensures
            info.camera_info() == self.camera_info(),
            info.materials() == self.materials(),
            info.hittables().len() == self.hittables().len() + 1,
            info.hittables().drop_last() == self.hittables(),
            info.hittables().last() matches HittableInfo::Triangle(s) && s.name@ == name@
                && s.material_name@ == material_name@ && s.point_one == point_one && s.point_two
                == point_two && s.point_three == point_three,
    {
        let added = HittableInfo::Triangle(
            TriangleInfo::new(name, material_name, point_one, point_two, point_three),
        );
        let info = self.hittable(added);
        assert(info.hittables().drop_last() =~= self.hittables());
        info
    }

    /// Declares a light.
    pub fn emission(self, name: &str, color: Vec3, power: Scalar) -> (info: Self)
        ensures
            info.camera_info() == self.camera_info(),
            info.hittables() == self.hittables(),
            distinct_names(self.materials()) ==> distinct_names(info.materials()),
            exists|added: MaterialInfo|
                {
                    &&& info.materials() == declared(self.materials(), added)
                    &&& added matches MaterialInfo::Emission(m) && m.name@ == name@ && m.color == color
                        && m.power == power
                },
    {
        let added = MaterialInfo::Emission(EmissionInfo::new(name, color, power));
        self.material(added)
    }

    /// Declares a diffuse material.
    pub fn lambertian(self, name: &str, color: Vec3) -> (info: Self)
        ensures
            info.camera_info() == self.camera_info(),
            info.hittables() == self.hittables(),
            distinct_names(self.materials()) ==> distinct_names(info.materials()),
            exists|added: MaterialInfo|
                {
                    &&& info.materials() == declared(self.materials(), added)
                    &&& added matches MaterialInfo::Lambertian(m) && m.name@ == name@ && m.color
                        == color
                },
    {
        let added = MaterialInfo::Lambertian(LambertianInfo::new(name, color));
        self.material(added)
    }

    /// Declares a mirror-like material.
    pub fn reflective(self, name: &str, color: Vec3, reflectiveness: Scalar) -> (info: Self)
        ensures
            info.camera_info() == self.camera_info(),
            info.hittables() == self.hittables(),
            distinct_names(self.materials()) ==> distinct_names(info.materials()),
            exists|added: MaterialInfo|
                {
                    &&& info.materials() == declared(self.materials(), added)
                    &&& added matches MaterialInfo::Reflective(m) && m.name@ == name@ && m.color
                        == color && m.reflectiveness == reflectiveness
                },
    {
        let added = MaterialInfo::Reflective(ReflectiveInfo::new(name, color, reflectiveness));
        self.material(added)
    }

    /// Declares a glass-like material.
    pub fn refractive(self, name: &str, color: Vec3, index_of_refraction: Scalar) -> (info: Self)
        ensures
            info.camera_info() == self.camera_info(),
            info.hittables() == self.hittables(),
            distinct_names(self.materials()) ==> distinct_names(info.materials()),
            exists|added: MaterialInfo|
                {
                    &&& info.materials() == declared(self.materials(), added)
                    &&& added matches MaterialInfo::Refractive(m) && m.name@ == name@ && m.color
                        == color && m.index_of_refraction == index_of_refraction
                },
    {
        let added = MaterialInfo::Refractive(
            RefractiveInfo::new(name, color, index_of_refraction),
        );
        self.material(added)
    }

    /// Whether a scene can be built: the camera is set and every surface names
    /// a material that is there.
    pub open spec fn buildable(&self) -> bool {
        self.camera_info() is Some && self.resolved()
    }

    /// Tests whether a scene can be built.  A missing camera is reported
    /// first, then the first surface that names a material that is not there.
    pub fn validate(&self) -> (r: Result<(), SceneError>)
        ensures
            r is Ok == self.buildable(),
            self.camera_info() is None ==> r is Err && r->Err_0 is MissingCamera,
            self.camera_info() is Some && !self.resolved() ==> {
                &&& r is Err
                &&& r->Err_0 is MissingMaterial
                &&& exists|j: int|
                    self.is_first_unresolved(j) && r->Err_0->name@ == (
                    #[trigger] self.hittables()[j]).material_name()
            },
    {
        if self.camera.is_none() {
            return Err(SceneError::MissingCamera);
        }
        let mut j: usize = 0;
        while j < self.hittables.len()
            invariant
                0 <= j <= self.hittables@.len(),
                self.camera_info() is Some,
                forall|k: int|
                    0 <= k < j ==> has_material(
                        self.materials(),
                        (#[trigger] self.hittables()[k]).material_name(),
                    ),
            decreases self.hittables@.len() - j,
        {
            let material_name = self.hittables[j].get_material_name();
            if self.find_material(material_name).is_none() {
                assert(self.is_first_unresolved(j as int));
                return Err(SceneError::MissingMaterial { name: material_name.to_owned() });
            }
            j = j + 1;
        }
        Ok(())
    }

    /// Builds the scene of a description that has its camera and all the
    /// materials that its surfaces name (see [`SceneInfo::validate`]).  The
    /// camera, every material and every surface is made by the constructor
    /// that the caller hands in, the surfaces in the order of their
    /// declaration; a surface's constructor is told the place of the surface's
    /// material in the scene's list.
    #[verifier::loop_isolation(false)]
    pub fn build<C, M, H, FC, FM, FH>(
        self,
        make_camera: FC,
        make_material: FM,
        make_hittable: FH,
    ) -> (scene: Scene<C, M, H>) where
        H: Hittable,
        FC: Fn(&CameraInfo) -> C,
        FM: Fn(&MaterialInfo) -> M,
        FH: Fn(&HittableInfo, usize) -> H,

        requires
            self.buildable(),
            forall|camera: CameraInfo| call_requires(make_camera, (&camera,)),
            forall|material: MaterialInfo| call_requires(make_material, (&material,)),
            forall|hittable: HittableInfo, place: usize|
                call_requires(make_hittable, (&hittable, place)),
        ensures
            call_ensures(make_camera, (&self.camera_info()->Some_0,), scene.camera),
            scene.materials@.len() == self.materials().len(),
            forall|i: int|
                0 <= i < self.materials().len() ==> call_ensures(
                    make_material,
                    (&self.materials()[i],),
                    #[trigger] scene.materials@[i],
                ),
            scene.hittable_list.hittables@.len() == self.hittables().len(),
            forall|j: int|
                0 <= j < self.hittables().len() ==> made_with_material(
                    self.materials(),
                    self.hittables()[j],
                    make_hittable,
                    #[trigger] scene.hittable_list.hittables@[j],
                ),
    {
        let camera = match &self.camera {
            Some(info) => make_camera(info),
            None => vstd::pervasive::unreached(),
        };
        let mut materials: Vec<M> = Vec::new();
        let mut i: usize = 0;
        while i < self.materials.len()
            invariant
                0 <= i <= self.materials@.len(),
                materials@.len() == i,
                forall|material: MaterialInfo| call_requires(make_material, (&material,)),
                forall|k: int|
                    0 <= k < i ==> call_ensures(
                        make_material,
                        (&self.materials@[k],),
                        #[trigger] materials@[k],
                    ),
            decreases self.materials@.len() - i,
        {
            let material = make_material(&self.materials[i]);
            materials.push(material);
            i = i + 1;
        }
        let mut hittables: Vec<H> = Vec::new();
        let mut j: usize = 0;
        while j < self.hittables.len()
            invariant
                0 <= j <= self.hittables@.len(),
                hittables@.len() == j,
                forall|hittable: HittableInfo, place: usize|
                    call_requires(make_hittable, (&hittable, place)),
                forall|k: int|
                    0 <= k < j ==> has_material(
                        self.materials(),
                        (#[trigger] self.hittables()[k]).material_name(),
                    ),
                forall|k: int|
                    0 <= k < j ==> made_with_material(
                        self.materials(),
                        self.hittables()[k],
                        make_hittable,
                        #[trigger] hittables@[k],
                    ),
            decreases self.hittables@.len() - j,
        {
            let material_name = self.hittables[j].get_material_name();
            match self.find_material(material_name) {
                Some(place) => {
                    let hittable = make_hittable(&self.hittables[j], place);
                    assert(made_with_material(
                        self.materials(),
                        self.hittables()[j as int],
                        make_hittable,
                        hittable,
                    )) by {
                        assert(is_place_of(
                            self.materials(),
                            self.hittables()[j as int].material_name(),
                            place as int,
                        ));
                    }
                    hittables.push(hittable);
                },
                None => {
                    assert(has_material(
                        self.materials(),
                        self.hittables()[j as int].material_name(),
                    ));
                    vstd::pervasive::unreached()
                },
            }
            j = j + 1;
        }
        Scene::new(camera, materials, HittableList::new(hittables))
    }
}

/// Whether `made` is what `make_hittable` makes of a surface's description
/// and the place of the surface's material among the materials.
pub open spec fn made_with_material<H, FH: Fn(&HittableInfo, usize) -> H>(
    materials: Seq<MaterialInfo>,
    hittable: HittableInfo,
    make_hittable: FH,
    made: H,
) -> bool {
    exists|place: usize|
        {
            &&& #[trigger] is_place_of(materials, hittable.material_name(), place as int)
            &&& call_ensures(make_hittable, (&hittable, place), made)
        }
}

/// The first place of a name is the only first place of it.
pub proof fn lemma_place_is_unique(materials: Seq<MaterialInfo>, name: Seq<char>, at: int)
    requires
        is_place_of(materials, name, at),
    ensures
        has_material(materials, name),
        (choose|other: int| is_place_of(materials, name, other)) == at,
{
    let other = choose|other: int| is_place_of(materials, name, other);
    assert(is_place_of(materials, name, other));
    if other < at {
        assert(materials[other].name() != name);
    } else if at < other {
        assert(materials[at].name() != name);
    }
}

} // verus!
