//! The scene: bodies, materials, camera and light, and the single pass that
//! populates them once the assets are there.

use crate::mesh::{tri_mesh_shape, MeshAsset, MeshHandle, TriMesh};
use crate::units::{Displacement, Scalar, Vector};
use vstd::prelude::*;

verus! {

/// How a body takes part in the simulation.
#[derive(Clone, Copy, Debug, PartialEq, Eq, Hash, Structural)]
pub enum BodyKind {
    /// Never moves.
    Fixed,
    /// Moved by the physics solver.
    Dynamic,
    /// Moved by the displacement that the controller asks for each frame.
    KinematicControlled,
}

/// The colours that the scene uses.
#[derive(Clone, Copy, Debug, PartialEq, Eq, Hash, Structural)]
pub enum Color {
    White,
    Silver,
}

/// A surface material.
#[derive(Clone, Copy, Debug, PartialEq, Eq, Hash, Structural)]
pub struct Material {
    pub base_color: Color,
}

/// Position of a material in the registry.
#[derive(Clone, Copy, Debug, PartialEq, Eq, Hash, Structural)]
pub struct MaterialHandle {
    pub index: usize,
}

/// Position of a body in the registry.
#[derive(Clone, Copy, Debug, PartialEq, Eq, Hash, Structural)]
pub struct BodyHandle {
    pub index: usize,
}

/// What is drawn for a body.
#[derive(Clone, Copy, Debug, PartialEq, Eq, Hash, Structural)]
pub enum Visual {
    /// A loaded mesh.
    Mesh(MeshHandle),
    /// A cube with edges of the given length.
    Cube { size: Scalar },
}

/// The geometry that the physics collaborator tests for contact.
#[derive(Clone, Copy, Debug, PartialEq, Eq, Hash, Structural)]
pub enum CollisionShape {
    /// The triangles of a mesh.
    TriMesh(TriMesh),
    /// A box given by half its extent along each axis.
    Cuboid { half_extents: Vector },
}

/// A linear and an angular part: a force with its torque, or an impulse with
/// its torque impulse.
#[derive(Clone, Copy, Debug, PartialEq, Eq, Hash, Structural)]
pub struct Wrench {
    pub linear: Vector,
    pub angular: Vector,
}

/// How fast a body's motion dies away.
#[derive(Clone, Copy, Debug, PartialEq, Eq, Hash, Structural)]
pub struct Damping {
    pub linear: Scalar,
    pub angular: Scalar,
}

/// A physics entity of the scene.
#[derive(Clone, Copy, Debug, PartialEq, Eq, Hash, Structural)]
pub struct Body {
    pub kind: BodyKind,
    pub position: Vector,
    pub visual: Option<Visual>,
    pub material: Option<MaterialHandle>,
    pub shape: Option<CollisionShape>,
    pub density: Option<Scalar>,
    /// A constant force, applied from the moment the body exists.
    pub force: Option<Wrench>,
    /// An impulse, applied once when the body is created.
    pub impulse: Option<Wrench>,
    pub damping: Option<Damping>,
    pub gravity_scale: Option<Scalar>,
    /// Clearance that the controller keeps to obstacles when it sweeps the body.
    pub skin_offset: Option<Scalar>,
    /// The displacement asked for this frame, until the physics collaborator takes it.
    pub pending: Option<Displacement>,
}

/// The viewpoint of the scene. It looks at `target` with the y axis up.
#[derive(Clone, Copy, Debug, PartialEq, Eq, Hash, Structural)]
pub struct Camera {
    pub position: Vector,
    pub target: Vector,
}

/// Light that reaches every surface alike.
#[derive(Clone, Copy, Debug, PartialEq, Eq, Hash, Structural)]
pub struct AmbientLight {
    pub color: Color,
    pub brightness: Scalar,
}

/// A static setup that the bootstrap cannot work with. None of these can be
/// recovered from: the host ends the process with the error's message.
#[derive(Clone, Copy, Debug, PartialEq, Eq, Hash, Structural)]
pub enum ConfigError {
    /// The floor mesh was not resolvable when the scene was to be built.
    MeshUnresolved,
    /// No collision shape can be derived from the floor mesh.
    DegenerateMesh,
    /// The scene does not hold exactly one kinematically controlled body.
    ControlledBodyCount,
}

impl ConfigError {
    /// The text of the diagnostic that the host ends the process with.
    pub open spec fn text(self) -> Seq<char> {
        match self {
            ConfigError::MeshUnresolved => "the floor mesh is not resolvable"@,
            ConfigError::DegenerateMesh => "no collision shape can be derived from the floor mesh"@,
            ConfigError::ControlledBodyCount => "the scene must hold exactly one controlled body"@,
        }
    }

    /// The diagnostic that the host ends the process with.
    pub fn message(&self) -> (message: &'static str)
        ensures
            message@ == self.text(),
    {
        match self {
            ConfigError::MeshUnresolved => "the floor mesh is not resolvable",
            ConfigError::DegenerateMesh => "no collision shape can be derived from the floor mesh",
            ConfigError::ControlledBodyCount => "the scene must hold exactly one controlled body",
        }
    }
}

impl Body {
    /// A body of the given kind at the origin, with every optional attribute absent.
    pub open spec fn blank(kind: BodyKind) -> Body {
        Body {
            kind,
            position: Vector::of_micro(0, 0, 0),
            visual: None,
            material: None,
            shape: None,
            density: None,
            force: None,
            impulse: None,
            damping: None,
            gravity_scale: None,
            skin_offset: None,
            pending: None,
        }
    }
}

/// The floor: fixed at the origin, drawn as the mesh that its shape was derived from.
pub open spec fn floor_body(shape: TriMesh, material: MaterialHandle) -> Body {
    Body {
        visual: Some(Visual::Mesh(shape.source())),
        material: Some(material),
        shape: Some(CollisionShape::TriMesh(shape)),
        ..Body::blank(BodyKind::Fixed)
    }
}

/// The falling box: a cube of edge 2 that starts 5 above the origin and falls
/// under half the normal gravity.
pub open spec fn falling_body(material: MaterialHandle) -> Body {
    Body {
        position: Vector::of_micro(0, 5_000_000, 0),
        visual: Some(Visual::Cube { size: Scalar { micro: 2_000_000 } }),
        material: Some(material),
        shape: Some(
            CollisionShape::Cuboid { half_extents: Vector::of_micro(1_000_000, 1_000_000, 1_000_000) },
        ),
        gravity_scale: Some(Scalar { micro: 500_000 }),
        ..Body::blank(BodyKind::Dynamic)
    }
}

/// The pushed body: created at the origin with a constant force and a single impulse.
pub open spec fn pushed_body() -> Body {
    Body {
        force: Some(
            Wrench {
                linear: Vector::of_micro(10_000_000, 20_000_000, 30_000_000),
                angular: Vector::of_micro(1_000_000, 2_000_000, 3_000_000),
            },
        ),
        impulse: Some(
            Wrench {
                linear: Vector::of_micro(1_000_000, 2_000_000, 3_000_000),
                angular: Vector::of_micro(100_000, 200_000, 300_000),
            },
        ),
        ..Body::blank(BodyKind::Dynamic)
    }
}

/// The character: a box that the controller moves, with a clearance of 0.1
/// and a density of 199.
pub open spec fn character_body(material: MaterialHandle) -> Body {
    Body {
        position: Vector::of_micro(1_500_000, 2_000_000, 1_000_000),
        visual: Some(Visual::Cube { size: Scalar { micro: 2_000_000 } }),
        material: Some(material),
        shape: Some(
            CollisionShape::Cuboid { half_extents: Vector::of_micro(900_000, 900_000, 900_000) },
        ),
        density: Some(Scalar { micro: 199_000_000 }),
        skin_offset: Some(Scalar { micro: 100_000 }),
        ..Body::blank(BodyKind::KinematicControlled)
    }
}

/// The camera of the scene: above and behind the origin, looking at it.
pub open spec fn scene_camera() -> Camera {
    Camera { position: Vector::of_micro(0, 3_000_000, 10_000_000), target: Vector::of_micro(0, 0, 0) }
}

/// The light of the scene: white, of brightness 1.
pub open spec fn scene_light() -> AmbientLight {
    AmbientLight { color: Color::White, brightness: Scalar { micro: 1_000_000 } }
}

/// The material that every drawn body of the scene gets a copy of.
pub open spec fn silver() -> Material {
    Material { base_color: Color::Silver }
}

/// What a registry holds, as mathematical sequences.
pub struct SceneView {
    pub bodies: Seq<Body>,
    pub materials: Seq<Material>,
    pub camera: Option<Camera>,
    pub ambient_light: Option<AmbientLight>,
}

impl SceneView {
    /// The registry that holds nothing.
    pub open spec fn empty() -> SceneView {
        SceneView { bodies: Seq::empty(), materials: Seq::empty(), camera: None, ambient_light: None }
    }

    /// The registry after one more body.
    pub open spec fn with_body(self, body: Body) -> SceneView {
        SceneView { bodies: self.bodies.push(body), ..self }
    }

    /// The registry after one more material.
    pub open spec fn with_material(self, material: Material) -> SceneView {
        SceneView { materials: self.materials.push(material), ..self }
    }

    /// The registry after the scene has been built into it around the floor
    /// shape `shape`: three materials and four bodies more, in the order floor,
    /// falling box, pushed body, character; the camera and the light set.
    pub open spec fn populated(self, shape: TriMesh) -> SceneView {
        let first = self.materials.len();
        SceneView {
            bodies: self.bodies.push(floor_body(shape, MaterialHandle { index: first as usize })).push(
                falling_body(MaterialHandle { index: (first + 1) as usize }),
            ).push(pushed_body()).push(
                character_body(MaterialHandle { index: (first + 2) as usize }),
            ),
            materials: self.materials.push(silver()).push(silver()).push(silver()),
            camera: Some(scene_camera()),
            ambient_light: Some(scene_light()),
        }
    }

    /// Whether the body at `i` is kinematically controlled.
    pub open spec fn controlled_at(self, i: int) -> bool {
        0 <= i < self.bodies.len() && self.bodies[i].kind == BodyKind::KinematicControlled
    }

    /// Whether the body at `i` is the only kinematically controlled body.
    pub open spec fn sole_controlled(self, i: int) -> bool {
        self.controlled_at(i) && forall|j: int| self.controlled_at(j) ==> j == i
    }

    /// Whether exactly one body is kinematically controlled.
    pub open spec fn has_sole_controlled(self) -> bool {
        exists|i: int| self.sole_controlled(i)
    }

    /// The registry after the pending slot of the body at `i` has been set to `pending`.
    pub open spec fn with_pending(self, i: int, pending: Option<Displacement>) -> SceneView
        recommends
            0 <= i < self.bodies.len(),
    {
        SceneView { bodies: self.bodies.update(i, Body { pending, ..self.bodies[i] }), ..self }
    }

    /// The position of the only kinematically controlled body.
    pub open spec fn controlled_index(self) -> int
        recommends
            self.has_sole_controlled(),
    {
        choose|i: int| self.sole_controlled(i)
    }
}

/// The bodies, materials, camera and light of one scene.
#[derive(Clone, Debug, PartialEq, Eq)]
pub struct SceneRegistry {
    bodies: Vec<Body>,
    materials: Vec<Material>,
    camera: Option<Camera>,
    ambient_light: Option<AmbientLight>,
}

impl View for SceneRegistry {
    type V = SceneView;

    closed spec fn view(&self) -> SceneView {
        SceneView {
            bodies: self.bodies@,
            materials: self.materials@,
            camera: self.camera,
            ambient_light: self.ambient_light,
        }
    }
}

impl SceneRegistry {
    /// A registry that holds nothing.
    pub fn new() -> (registry: SceneRegistry)
        ensures
            registry@ == SceneView::empty(),
    {
        SceneRegistry { bodies: Vec::new(), materials: Vec::new(), camera: None, ambient_light: None }
    }

    /// Adds a material and returns its handle.
    pub fn add_material(&mut self, material: Material) -> (handle: MaterialHandle)
        ensures
            final(self)@ == old(self)@.with_material(material),
            handle.index == old(self)@.materials.len(),
    {
        let index: usize = self.materials.len();
        self.materials.push(material);
        MaterialHandle { index }
    }

    /// Adds a body and returns its handle.
    pub fn add_body(&mut self, body: Body) -> (handle: BodyHandle)
        ensures
            final(self)@ == old(self)@.with_body(body),
            handle.index == old(self)@.bodies.len(),
    {
        let index: usize = self.bodies.len();
        self.bodies.push(body);
        BodyHandle { index }
    }

    /// Sets the camera, replacing an earlier one.
    pub fn set_camera(&mut self, camera: Camera)
        ensures
            final(self)@ == (SceneView { camera: Some(camera), ..old(self)@ }),
    {
        self.camera = Some(camera);
    }

    /// Sets the ambient light, replacing an earlier one.
    pub fn set_ambient_light(&mut self, light: AmbientLight)
        ensures
            final(self)@ == (SceneView { ambient_light: Some(light), ..old(self)@ }),
    {
        self.ambient_light = Some(light);
    }

    /// Number of bodies.
    pub fn body_count(&self) -> (count: usize)
        ensures
            count == self@.bodies.len(),
    {
        self.bodies.len()
    }

    /// The body at `handle`, if there is one.
    pub fn body(&self, handle: BodyHandle) -> (body: Option<Body>)
        ensures
            body == (if handle.index < self@.bodies.len() {
                Some(self@.bodies[handle.index as int])
            } else {
                None
            }),
    {
        if handle.index < self.bodies.len() {
            Some(self.bodies[handle.index])
        } else {
            None
        }
    }

    /// Number of materials.
    pub fn material_count(&self) -> (count: usize)
        ensures
            count == self@.materials.len(),
    {
        self.materials.len()
    }

    /// The material at `handle`, if there is one.
    pub fn material(&self, handle: MaterialHandle) -> (material: Option<Material>)
        ensures
            material == (if handle.index < self@.materials.len() {
                Some(self@.materials[handle.index as int])
            } else {
                None
            }),
    {
        if handle.index < self.materials.len() {
            Some(self.materials[handle.index])
        } else {
            None
        }
    }

    /// The camera, once it has been set.
    pub fn camera(&self) -> (camera: Option<Camera>)
        ensures
            camera == self@.camera,
    {
        self.camera
    }

    /// The ambient light, once it has been set.
    pub fn ambient_light(&self) -> (light: Option<AmbientLight>)
        ensures
            light == self@.ambient_light,
    {
        self.ambient_light
    }

    /// Writes `displacement` into the pending slot of the body at `handle`,
    /// over whatever the slot held.
    pub fn set_pending(&mut self, handle: BodyHandle, displacement: Displacement)
        requires
            handle.index < old(self)@.bodies.len(),
        ensures
            final(self)@ == old(self)@.with_pending(handle.index as int, Some(displacement)),
    {
        let body: Body = self.bodies[handle.index];
        self.bodies.set(handle.index, Body { pending: Some(displacement), ..body });
    }

    /// Hands out the displacement that is pending for the body at `handle` and
    /// empties the slot. Without such a body, or with an empty slot, nothing
    /// changes and the result is `None`.
    pub fn take_pending(&mut self, handle: BodyHandle) -> (taken: Option<Displacement>)
        ensures
            handle.index < old(self)@.bodies.len() ==> taken == old(self)@.bodies[handle.index as int].pending
                && final(self)@ == old(self)@.with_pending(handle.index as int, None),
            handle.index >= old(self)@.bodies.len() ==> taken is None && final(self)@ == old(self)@,
    {
        if handle.index >= self.bodies.len() {
            return None;
        }
        let body: Body = self.bodies[handle.index];
        self.bodies.set(handle.index, Body { pending: None, ..body });
        body.pending
    }

    /// Finds the kinematically controlled body.
    ///
    /// The controller works on exactly one such body: with none, or with more
    /// than one, the result is the configuration error.
    pub fn sole_controlled(&self) -> (found: Result<BodyHandle, ConfigError>)
        ensures
            match found {
                Ok(handle) => self@.sole_controlled(handle.index as int),
                Err(e) => e == ConfigError::ControlledBodyCount && !self@.has_sole_controlled(),
            },
    {
        let mut first: Option<usize> = None;
        let mut i: usize = 0;
        while i < self.bodies.len()
            invariant
                i <= self.bodies@.len(),
                self@.bodies == self.bodies@,
                match first {
                    None => forall|j: int| 0 <= j < i ==> !self@.controlled_at(j),
                    Some(f) => f < i && self@.controlled_at(f as int) && forall|j: int|
                        0 <= j < i && self@.controlled_at(j) ==> j == f,
                },
            decreases self.bodies@.len() - i,
        {
            if self.bodies[i].kind == BodyKind::KinematicControlled {
                match first {
                    None => {
                        first = Some(i);
                    },
                    Some(f) => {
                        assert(self@.controlled_at(f as int) && self@.controlled_at(i as int));
                        return Err(ConfigError::ControlledBodyCount);
                    },
                }
            }
            i += 1;
        }
        match first {
            Some(f) => Ok(BodyHandle { index: f }),
            None => Err(ConfigError::ControlledBodyCount),
        }
    }
}

/// What building the scene around `floor` comes to: the floor's collision
/// shape, or the configuration error that forbids the build.
pub open spec fn floor_outcome(floor: Option<MeshAsset>) -> Result<TriMesh, ConfigError> {
    match floor {
        None => Err(ConfigError::MeshUnresolved),
        Some(mesh) => match mesh.shape() {
            None => Err(ConfigError::DegenerateMesh),
            Some(shape) => Ok(shape),
        },
    }
}

/// Derives the floor's collision shape from the floor mesh, as far as the
/// asset pipeline has resolved it.
///
/// An unresolved mesh and a mesh without convertible geometry are
/// configuration errors; a shape is never made up in their place.
pub fn floor_shape(floor: Option<&MeshAsset>) -> (outcome: Result<TriMesh, ConfigError>)
    ensures
        outcome == floor_outcome(
            match floor {
                Some(mesh) => Some(*mesh),
                None => None,
            },
        ),
        outcome is Ok <==> (floor matches Some(mesh) && mesh.convertible()),
        outcome matches Ok(shape) ==> shape.wf() && shape.source() == floor->0.handle
            && shape.triangles() == floor->0.triangle_count(),
        outcome matches Err(e) ==> e == (if floor is None {
            ConfigError::MeshUnresolved
        } else {
            ConfigError::DegenerateMesh
        }),
{
    match floor {
        None => Err(ConfigError::MeshUnresolved),
        Some(mesh) => match tri_mesh_shape(mesh) {
            None => Err(ConfigError::DegenerateMesh),
            Some(shape) => Ok(shape),
        },
    }
}

/// Builds the scene into `registry` around a floor shape that has been derived.
///
/// In this order: the floor; the camera; the ambient light; the falling box;
/// the pushed body; the character. Each drawn body gets a silver material of
/// its own. What the registry held before stays, in front of what is added.
pub fn populate(registry: &mut SceneRegistry, shape: TriMesh)
    ensures
        final(registry)@ == old(registry)@.populated(shape),
{
    let floor_material = registry.add_material(Material { base_color: Color::Silver });
    Body::builder(BodyKind::Fixed).with_position(Vector::zero()).with_visual(
        Visual::Mesh(shape.mesh()),
    ).with_material(floor_material).with_collider(CollisionShape::TriMesh(shape)).build(registry);

    registry.set_camera(
        Camera { position: Vector::from_micro(0, 3_000_000, 10_000_000), target: Vector::zero() },
    );
    registry.set_ambient_light(
        AmbientLight { color: Color::White, brightness: Scalar::from_micro(1_000_000) },
    );

    let box_material = registry.add_material(Material { base_color: Color::Silver });
    Body::builder(BodyKind::Dynamic).with_position(Vector::from_micro(0, 5_000_000, 0)).with_visual(
        Visual::Cube { size: Scalar::from_micro(2_000_000) },
    ).with_material(box_material).with_gravity_scale(Scalar::from_micro(500_000)).with_collider(
        CollisionShape::Cuboid { half_extents: Vector::from_micro(1_000_000, 1_000_000, 1_000_000) },
    ).build(registry);

    Body::builder(BodyKind::Dynamic).with_force(
        Wrench {
            linear: Vector::from_micro(10_000_000, 20_000_000, 30_000_000),
            angular: Vector::from_micro(1_000_000, 2_000_000, 3_000_000),
        },
    ).with_impulse(
        Wrench {
            linear: Vector::from_micro(1_000_000, 2_000_000, 3_000_000),
            angular: Vector::from_micro(100_000, 200_000, 300_000),
        },
    ).build(registry);

    let character_material = registry.add_material(Material { base_color: Color::Silver });
    Body::builder(BodyKind::KinematicControlled).with_position(
        Vector::from_micro(1_500_000, 2_000_000, 1_000_000),
    ).with_visual(Visual::Cube { size: Scalar::from_micro(2_000_000) }).with_material(
        character_material,
    ).with_collider(
        CollisionShape::Cuboid { half_extents: Vector::from_micro(900_000, 900_000, 900_000) },
    ).with_skin_offset(Scalar::from_micro(100_000)).with_density(
        Scalar::from_micro(199_000_000),
    ).build(registry);
}

/// The scene builder: derives the floor's collision shape and populates
/// `registry` around it.
///
/// Where the floor mesh is unresolved or no shape can be derived from it, the
/// result is the configuration error and the registry is left as it was: no
/// body is ever created around a missing or an empty shape.
pub fn build_scene(registry: &mut SceneRegistry, floor: Option<&MeshAsset>) -> (outcome: Result<
    (),
    ConfigError,
>)
    ensures
        match floor_outcome(
            match floor {
                Some(mesh) => Some(*mesh),
                None => None,
            },
        ) {
            Ok(shape) => outcome is Ok && final(registry)@ == old(registry)@.populated(shape),
            Err(e) => outcome == Err::<(), ConfigError>(e) && final(registry)@ == old(registry)@,
        },
        outcome is Ok <==> (floor matches Some(mesh) && mesh.convertible()),
{
    match floor_shape(floor) {
        Ok(shape) => {
            populate(registry, shape);
            Ok(())
        },
        Err(e) => Err(e),
    }
}

/// A body under construction. Attributes are attached one at a time; `build`
/// hands the finished body to a registry.
#[derive(Clone, Copy, Debug, PartialEq, Eq, Hash, Structural)]
pub struct BodyBuilder {
    pub body: Body,
}

impl Body {
    /// Starts a body of the given kind: at the origin, with no optional attribute.
    pub fn builder(kind: BodyKind) -> (builder: BodyBuilder)
        ensures
            builder.body == Body::blank(kind),
    {
        BodyBuilder {
            body: Body {
                kind,
                position: Vector::zero(),
                visual: None,
                material: None,
                shape: None,
                density: None,
                force: None,
                impulse: None,
                damping: None,
                gravity_scale: None,
                skin_offset: None,
                pending: None,
            },
        }
    }
}

impl BodyBuilder {
    /// Places the body.
    pub fn with_position(self, position: Vector) -> (next: BodyBuilder)
        ensures
            next.body == (Body { position, ..self.body }),
    {
        BodyBuilder { body: Body { position, ..self.body } }
    }

    /// Says what is drawn for the body.
    pub fn with_visual(self, visual: Visual) -> (next: BodyBuilder)
        ensures
            next.body == (Body { visual: Some(visual), ..self.body }),
    {
        BodyBuilder { body: Body { visual: Some(visual), ..self.body } }
    }

    /// Gives the body a material of the registry it will be built into.
    pub fn with_material(self, material: MaterialHandle) -> (next: BodyBuilder)
        ensures
            next.body == (Body { material: Some(material), ..self.body }),
    {
        BodyBuilder { body: Body { material: Some(material), ..self.body } }
    }

    /// Gives the body its collision shape.
    pub fn with_collider(self, shape: CollisionShape) -> (next: BodyBuilder)
        ensures
            next.body == (Body { shape: Some(shape), ..self.body }),
    {
        BodyBuilder { body: Body { shape: Some(shape), ..self.body } }
    }

    /// Overrides the density that the body's mass is computed from.
    pub fn with_density(self, density: Scalar) -> (next: BodyBuilder)
        ensures
            next.body == (Body { density: Some(density), ..self.body }),
    {
        BodyBuilder { body: Body { density: Some(density), ..self.body } }
    }

    /// Applies a constant force and torque to the body from its creation on.
    pub fn with_force(self, force: Wrench) -> (next: BodyBuilder)
        ensures
            next.body == (Body { force: Some(force), ..self.body }),
    {
        BodyBuilder { body: Body { force: Some(force), ..self.body } }
    }

    /// Applies an impulse and torque impulse to the body, once, at its creation.
    pub fn with_impulse(self, impulse: Wrench) -> (next: BodyBuilder)
        ensures
            next.body == (Body { impulse: Some(impulse), ..self.body }),
    {
        BodyBuilder { body: Body { impulse: Some(impulse), ..self.body } }
    }

    /// Damps the body's linear and angular motion.
    pub fn with_damping(self, damping: Damping) -> (next: BodyBuilder)
        ensures
            next.body == (Body { damping: Some(damping), ..self.body }),
    {
        BodyBuilder { body: Body { damping: Some(damping), ..self.body } }
    }

    /// Scales the gravity that acts on the body.
    pub fn with_gravity_scale(self, scale: Scalar) -> (next: BodyBuilder)
        ensures
            next.body == (Body { gravity_scale: Some(scale), ..self.body }),
    {
        BodyBuilder { body: Body { gravity_scale: Some(scale), ..self.body } }
    }

    /// Sets the clearance that the controller keeps when it sweeps the body.
    pub fn with_skin_offset(self, offset: Scalar) -> (next: BodyBuilder)
        ensures
            next.body == (Body { skin_offset: Some(offset), ..self.body }),
    {
        BodyBuilder { body: Body { skin_offset: Some(offset), ..self.body } }
    }

    /// Hands the finished body to `registry` and returns its handle, which
    /// stays valid for as long as the registry lives.
    pub fn build(self, registry: &mut SceneRegistry) -> (handle: BodyHandle)
        ensures
            final(registry)@ == old(registry)@.with_body(self.body),
            handle.index == old(registry)@.bodies.len(),
    {
        registry.add_body(self.body)
    }
}

} // verus!
