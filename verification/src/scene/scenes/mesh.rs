//! A scene of triangle meshes, instances of them, lights and materials.
//!
//! Every float of a scene stands here as its 32-bit pattern: the renderer
//! moves floats into device buffers and never computes with them.

use vstd::prelude::*;

verus! {

/// Three floats, as bit patterns.
#[derive(Clone, Copy, Debug, PartialEq, Eq, Structural)]
pub struct Vec3 {
    pub x: u32,
    pub y: u32,
    pub z: u32,
}

/// The three corners of a triangle.
#[derive(Clone, Copy, Debug, PartialEq, Eq, Structural)]
pub struct Corners {
    pub a: Vec3,
    pub b: Vec3,
    pub c: Vec3,
}

/// A light of the scene.
#[derive(Clone, Copy, Debug, PartialEq, Eq, Structural)]
pub enum Light {
    Point { color: Vec3, position: Vec3 },
    Triangle { color: Vec3, vertices: Corners },
    Directional { color: Vec3, position: Vec3, direction: Vec3, radius: u32 },
}

/// A triangle mesh: three floats for each position and each normal, and
/// three indices for each triangle.
#[derive(Clone, Debug, PartialEq, Eq)]
pub struct Mesh {
    pub positions: Vec<u32>,
    pub normals: Vec<u32>,
    pub indices: Vec<u32>,
}

/// An instance of a mesh.
#[derive(Clone, Debug, PartialEq, Eq)]
pub struct Object {
    /// The transform, its sixteen floats column by column.
    pub transform: [u32; 16],
    /// Index of the mesh.
    pub mesh_i: usize,
    /// Index of the material, which is the index of its hit shader.
    pub brdf_i: usize,
    /// The parameters of the material for this instance, packed.
    pub brdf_params: Vec<u8>,
    /// Index of the first vertex of the mesh among the vertices of all
    /// meshes; for the mesh of an area light, the index of its first light.
    pub vertex_index: u32,
}

/// A box along the axes, its corners as floats in bit patterns.
#[derive(Clone, Copy, Debug, PartialEq, Eq, Structural)]
pub struct Aabb {
    pub min: Vec3,
    pub max: Vec3,
}

/// A shape that a shader intersects inside boxes.
#[derive(Clone, Debug, PartialEq, Eq)]
pub struct ProceduralGeometry {
    /// The boxes that hold the shape.
    pub aabbs: Vec<Aabb>,
    /// The shader that intersects a ray with the shape.
    pub intersection_shader: Shader,
    /// The shader that colours a hit.
    pub closest_hit_shader: Shader,
}

/// An instance of a procedural geometry.
#[derive(Clone, Copy, Debug, PartialEq, Eq)]
pub struct ProceduralObject {
    /// The transform, its sixteen floats column by column.
    pub transform: [u32; 16],
    /// Index of the geometry among the procedural geometries.
    pub geometry_index: usize,
    /// The number that the shaders get for the instance.
    pub custom_index: u32,
}

/// A change to the scene between two frames. Matrices come inverted, as the
/// ray generation shader wants them, their sixteen floats column by column.
#[derive(Clone, Copy, Debug, PartialEq, Eq)]
pub enum MeshSceneUpdate {
    /// The camera moved: the inverse of the new view matrix.
    NewView([u32; 16]),
    /// The surface changed its size: the new width and height, and the
    /// inverse of the new projection matrix.
    NewSize((u32, u32, [u32; 16])),
}

/// The magic number that SPIR-V code opens with.
pub const SPIRV_MAGIC: u32 = 0x07230203;

/// A shader: its name and either its SPIR-V code or, once the device has
/// compiled that, the handle of its module.
#[derive(Clone, Debug, PartialEq, Eq)]
pub enum Shader {
    Uncompiled(String, Vec<u32>),
    Compiled(String, u64),
}

/// Why bytes are not the code of a shader.
#[derive(Clone, Copy, Debug, PartialEq, Eq, Structural)]
pub enum ShaderError {
    /// The code is empty or not a whole number of words.
    InvalidSize,
    /// The code does not open with the magic number.
    InvalidMagic,
}

/// The word that four bytes write, lowest byte first.
pub open spec fn word_of(b0: u8, b1: u8, b2: u8, b3: u8) -> u32 {
    (b0 as u32) | ((b1 as u32) << 8) | ((b2 as u32) << 16) | ((b3 as u32) << 24)
}

/// The words that `bytes` write, each lowest byte first.
pub open spec fn words_of(bytes: Seq<u8>) -> Seq<u32> {
    Seq::new(
        bytes.len() / 4,
        |i: int| word_of(bytes[4 * i], bytes[4 * i + 1], bytes[4 * i + 2], bytes[4 * i + 3]),
    )
}

/// The fault of `bytes` as the code of a shader, if they have one.
pub open spec fn code_error(bytes: Seq<u8>) -> Option<ShaderError> {
    if bytes.len() == 0 || bytes.len() % 4 != 0 {
        Some(ShaderError::InvalidSize)
    } else if words_of(bytes)[0] != SPIRV_MAGIC {
        Some(ShaderError::InvalidMagic)
    } else {
        None
    }
}

/// The words of the SPIR-V code that a file holds as `bytes`. A file holds
/// each word lowest byte first, whatever the host.
pub fn spirv_words(bytes: &[u8]) -> (words: Result<Vec<u32>, ShaderError>)
    ensures
        match words {
            Ok(w) => code_error(bytes@) is None && w@ == words_of(bytes@),
            Err(e) => code_error(bytes@) == Some(e),
        },
{
    let len: usize = bytes.len();
    if len == 0 || len % 4 != 0 {
        return Err(ShaderError::InvalidSize);
    }
    let count: usize = len / 4;
    let mut words: Vec<u32> = Vec::new();
    let mut i: usize = 0;
    while i < count
        invariant
            i <= count,
            count == bytes@.len() / 4,
            bytes@.len() % 4 == 0,
            bytes@.len() <= usize::MAX,
            words@ == words_of(bytes@).take(i as int),
        decreases count - i,
    {
        let at: usize = 4 * i;
        let word: u32 = (bytes[at] as u32) | ((bytes[at + 1] as u32) << 8) | ((bytes[at + 2] as u32)
            << 16) | ((bytes[at + 3] as u32) << 24);
        words.push(word);
        assert(words@ =~= words_of(bytes@).take(i + 1));
        i += 1;
    }
    assert(words_of(bytes@).take(count as int) =~= words_of(bytes@));
    if words[0] != SPIRV_MAGIC {
        return Err(ShaderError::InvalidMagic);
    }
    Ok(words)
}

impl Shader {
    /// The handle of the module of a compiled shader.
    pub fn module(&self) -> (module: u64)
        requires
            self is Compiled,
        ensures
            module == self->Compiled_1,
    {
        match self {
            Shader::Compiled(_, module) => *module,
            Shader::Uncompiled(_, _) => 0,
        }
    }

    /// The name of the shader.
    pub fn name(&self) -> (name: &String)
        ensures
            *name == match *self {
                Shader::Uncompiled(n, _) => n,
                Shader::Compiled(n, _) => n,
            },
    {
        match self {
            Shader::Uncompiled(name, _) => name,
            Shader::Compiled(name, _) => name,
        }
    }

    /// The code that the device is to compile: that of a shader that is not
    /// compiled yet.
    pub fn code(&self) -> (code: Option<&Vec<u32>>)
        ensures
            match *self {
                Shader::Uncompiled(_, c) => code == Some(&c),
                Shader::Compiled(_, _) => code is None,
            },
    {
        match self {
            Shader::Uncompiled(_, code) => Some(code),
            Shader::Compiled(_, _) => None,
        }
    }

    /// The shader once the device has compiled its code into `module`; a
    /// shader that was compiled before stays as it is.
    pub fn compile(&self, module: u64) -> (compiled: Shader)
        ensures
            compiled is Compiled,
            match *self {
                Shader::Uncompiled(name, _) => compiled->Compiled_0@ == name@
                    && compiled->Compiled_1 == module,
                Shader::Compiled(name, old_module) => compiled->Compiled_0@ == name@
                    && compiled->Compiled_1 == old_module,
            },
    {
        match self {
            Shader::Uncompiled(name, _) => Shader::Compiled(name.clone(), module),
            Shader::Compiled(name, old_module) => Shader::Compiled(name.clone(), *old_module),
        }
    }
}

/// A scene as the renderer takes it in.
#[derive(Clone, Debug, PartialEq, Eq)]
pub struct MeshScene {
    /// The inverse of the view matrix of the camera.
    pub view_inverse: [u32; 16],
    /// The inverse of the projection matrix of the camera.
    pub projection_inverse: [u32; 16],
    pub lights: Vec<Light>,
    pub objects: Vec<Object>,
    pub meshes: Vec<Mesh>,
    pub raygen_shader: Shader,
    pub miss_shader: Shader,
    /// The closest-hit shader of each material.
    pub hit_shaders: Vec<Shader>,
    /// The parameters of the materials of all instances, packed.
    pub brdf_buf: Vec<u8>,
    /// For each instance the index of its parameters among those of its
    /// material.
    pub offset_buf: Vec<u32>,
}

} // verus!
