//! The scene model the renderer consumes, read-only, once per frame: an
//! ordered collection of scenes, each a flat graph of nodes. Within a scene
//! the renderer uses the first camera it finds; a scene without a camera is
//! skipped entirely.
use vstd::prelude::*;

use crate::math::Vector3;

verus! {

/// A camera: the renderer reads its position and frustum only, and never
/// mutates it. The frustum is the axis-aligned box between the two corner
/// vectors.
#[derive(Clone, Copy, PartialEq, Eq, Debug)]
pub struct Camera {
    pub position: Vector3,
    pub frustum_min: Vector3,
    pub frustum_max: Vector3,
}

impl Camera {
    /// The frustum culling test: a node at `p` is visible exactly when `p`
    /// lies inside the camera's frustum box.
    pub open spec fn spec_sees(self, p: Vector3) -> bool {
        &&& self.frustum_min.x <= p.x && p.x <= self.frustum_max.x
        &&& self.frustum_min.y <= p.y && p.y <= self.frustum_max.y
        &&& self.frustum_min.z <= p.z && p.z <= self.frustum_max.z
    }

    pub fn sees(&self, p: Vector3) -> (visible: bool)
        ensures
            visible == self.spec_sees(p),
    {
        self.frustum_min.x <= p.x && p.x <= self.frustum_max.x && self.frustum_min.y <= p.y && p.y
            <= self.frustum_max.y && self.frustum_min.z <= p.z && p.z <= self.frustum_max.z
    }
}

/// Texture slots of a mesh's material; an unset slot is rendered with the
/// renderer's dummy stand-in.
#[derive(Clone, Copy, PartialEq, Eq, Debug)]
pub struct Material {
    pub diffuse_texture: Option<u64>,
    pub normal_texture: Option<u64>,
}

/// Opaque scene geometry. A mesh whose geometry buffer is missing is
/// skipped by the geometry pass, never an error.
#[derive(Clone, Copy, PartialEq, Eq, Debug)]
pub struct Mesh {
    pub position: Vector3,
    pub material: Material,
    pub has_geometry: bool,
}

/// A point light with a range.
#[derive(Clone, Copy, PartialEq, Eq, Structural, Debug)]
pub struct Light {
    pub position: Vector3,
    pub radius: u32,
}

/// The shape particles are emitted from.
#[derive(Clone, Copy, PartialEq, Eq, Structural, Debug)]
pub enum Emitter {
    Sphere,
    Cuboid,
    Cylinder,
}

/// A particle system node; `soft_boundary_sharpness_factor` tunes how
/// sharply particles cut off against scene depth (0 is the softest blend).
#[derive(Clone, PartialEq, Eq, Debug)]
pub struct ParticleSystem {
    pub enabled: bool,
    pub texture: Option<u64>,
    pub acceleration: Vector3,
    pub soft_boundary_sharpness_factor: u32,
    pub live_particles: usize,
    pub emitters: Vec<Emitter>,
}

/// An unlit billboard sprite.
#[derive(Clone, Copy, PartialEq, Eq, Debug)]
pub struct Sprite {
    pub position: Vector3,
    pub texture: Option<u64>,
}

/// One node of a scene graph.
#[derive(Clone, Debug)]
pub enum Node {
    Base,
    Camera(Camera),
    Mesh(Mesh),
    Light(Light),
    ParticleSystem(ParticleSystem),
    Sprite(Sprite),
}

impl Node {
    pub fn is_camera(&self) -> (r: bool)
        ensures
            r == (self is Camera),
    {
        match self {
            Node::Camera(_) => true,
            _ => false,
        }
    }

    pub fn is_light(&self) -> (r: bool)
        ensures
            r == (self is Light),
    {
        match self {
            Node::Light(_) => true,
            _ => false,
        }
    }

    pub fn is_particle_system(&self) -> (r: bool)
        ensures
            r == (self is ParticleSystem),
    {
        match self {
            Node::ParticleSystem(_) => true,
            _ => false,
        }
    }

    pub fn is_sprite(&self) -> (r: bool)
        ensures
            r == (self is Sprite),
    {
        match self {
            Node::Sprite(_) => true,
            _ => false,
        }
    }
}

/// The first camera of a node sequence, if any.
pub open spec fn spec_find_camera(nodes: Seq<Node>) -> Option<Camera>
    decreases nodes.len(),
{
    if nodes.len() == 0 {
        None
    } else {
        match nodes[0] {
            Node::Camera(c) => Some(c),
            _ => spec_find_camera(nodes.drop_first()),
        }
    }
}

/// One scene: a flat graph of nodes, iterated linearly.
#[derive(Clone, Debug)]
pub struct Scene {
    pub nodes: Vec<Node>,
}

impl Scene {
    /// The first camera in graph order, or `None`; a scene without a camera
    /// contributes nothing to the frame.
    pub fn find_camera(&self) -> (r: Option<Camera>)
        ensures
            r == spec_find_camera(self.nodes@),
    {
        let n = self.nodes.len();
        proof {
            assert(self.nodes@.subrange(0, n as int) =~= self.nodes@);
        }
        let mut i: usize = 0;
        while i < n
            invariant
                n == self.nodes@.len(),
                i <= n,
                spec_find_camera(self.nodes@) == spec_find_camera(
                    self.nodes@.subrange(i as int, n as int),
                ),
            decreases n - i,
        {
            let node = &self.nodes[i];
            proof {
                assert(self.nodes@.subrange(i as int, n as int)[0] == self.nodes@[i as int]);
            }
            match node {
                Node::Camera(c) => {
                    return Some(*c);
                },
                _ => {},
            }
            proof {
                assert(self.nodes@.subrange(i as int, n as int).drop_first() =~= self.nodes@
                    .subrange(i as int + 1, n as int));
            }
            i = i + 1;
        }
        None
    }
}

/// The ordered collection of independent scenes rendered each frame.
#[derive(Clone, Debug)]
pub struct SceneContainer {
    pub scenes: Vec<Scene>,
}

impl SceneContainer {
    pub fn new() -> (c: SceneContainer)
        ensures
            c.scenes@.len() == 0,
    {
        SceneContainer { scenes: Vec::new() }
    }
}

} // verus!
