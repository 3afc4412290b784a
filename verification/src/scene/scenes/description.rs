//! The keys of a scene file and the values at them; what the file says of
//! the camera.
//!
//! A transform is handed on as the script that the file gives for it.

use crate::scene::param_field::FieldError;
use crate::scene::scenes::mesh::Vec3;
use crate::scene::shader_type::TypeError;
use crate::scene::type_lexer::same_text;
use crate::scene::value::{
    as_array, as_string, as_table, field_of, get_array, get_field, get_string, get_table,
    number_of, parse_toml_f32, parse_toml_vec3, vec3_of, Value, Wanted,
};
use vstd::prelude::*;

verus! {

/// A key of a scene file.
#[derive(Clone, Copy, Debug, PartialEq, Eq, Structural)]
pub enum Key {
    Object,
    Light,
    Camera,
    Mesh,
    Transform,
    Brdf,
    Name,
    Fields,
    Type,
    Color,
    Position,
    Direction,
    Radius,
    Fov,
    View,
    GlobalShaders,
    Raygen,
    Miss,
    EmitterHit,
    ChitShader,
    Field,
    ProceduralGeometry,
    ProceduralObject,
    IntersectionShader,
    ClosestHitShader,
    Aabbs,
    Geometry,
    CustomIndex,
    DirectionalEmitterInt,
    DirectionalEmitterHit,
}

impl Key {
    /// The key as the file writes it.
    pub open spec fn text(self) -> Seq<char> {
        match self {
            Key::Object => "object"@,
            Key::Light => "light"@,
            Key::Camera => "camera"@,
            Key::Mesh => "mesh"@,
            Key::Transform => "transform"@,
            Key::Brdf => "brdf"@,
            Key::Name => "name"@,
            Key::Fields => "fields"@,
            Key::Type => "type"@,
            Key::Color => "color"@,
            Key::Position => "position"@,
            Key::Direction => "direction"@,
            Key::Radius => "radius"@,
            Key::Fov => "fov"@,
            Key::View => "view"@,
            Key::GlobalShaders => "global_shaders"@,
            Key::Raygen => "raygen"@,
            Key::Miss => "miss"@,
            Key::EmitterHit => "emitter_hit"@,
            Key::ChitShader => "chit_shader"@,
            Key::Field => "field"@,
            Key::ProceduralGeometry => "procedural_geometry"@,
            Key::ProceduralObject => "procedural_object"@,
            Key::IntersectionShader => "intersection_shader"@,
            Key::ClosestHitShader => "closest_hit_shader"@,
            Key::Aabbs => "aabbs"@,
            Key::Geometry => "geometry"@,
            Key::CustomIndex => "custom_index"@,
            Key::DirectionalEmitterInt => "directional_emitter_int"@,
            Key::DirectionalEmitterHit => "directional_emitter_hit"@,
        }
    }

    /// The key as the file writes it.
    pub fn as_str(self) -> (text: &'static str)
        ensures
            text@ == self.text(),
    {
        match self {
            Key::Object => "object",
            Key::Light => "light",
            Key::Camera => "camera",
            Key::Mesh => "mesh",
            Key::Transform => "transform",
            Key::Brdf => "brdf",
            Key::Name => "name",
            Key::Fields => "fields",
            Key::Type => "type",
            Key::Color => "color",
            Key::Position => "position",
            Key::Direction => "direction",
            Key::Radius => "radius",
            Key::Fov => "fov",
            Key::View => "view",
            Key::GlobalShaders => "global_shaders",
            Key::Raygen => "raygen",
            Key::Miss => "miss",
            Key::EmitterHit => "emitter_hit",
            Key::ChitShader => "chit_shader",
            Key::Field => "field",
            Key::ProceduralGeometry => "procedural_geometry",
            Key::ProceduralObject => "procedural_object",
            Key::IntersectionShader => "intersection_shader",
            Key::ClosestHitShader => "closest_hit_shader",
            Key::Aabbs => "aabbs",
            Key::Geometry => "geometry",
            Key::CustomIndex => "custom_index",
            Key::DirectionalEmitterInt => "directional_emitter_int",
            Key::DirectionalEmitterHit => "directional_emitter_hit",
        }
    }
}

/// Why a scene file does not describe a scene.
#[derive(Clone, Copy, Debug, PartialEq, Eq, Structural)]
pub enum SceneError {
    /// The value at a key is not there or not what it is wanted as.
    Field(Key, Wanted),
    /// An entry of the list at a key is no table.
    Entry(Key),
    /// A light has a type that is none.
    UnknownLightType,
    /// A light or an object names a mesh that was not loaded.
    UnknownMesh,
    /// The mesh of an area light has indices that do not make up whole
    /// triangles.
    FaceList,
    /// The lights are more than 32 bits can count.
    TooManyLights,
    /// An object names a material whose parameters are not declared.
    UnknownBrdf,
    /// An object names a material that has no hit shader.
    UnknownBrdfShader,
    /// An object gives another number of parameters than its material
    /// declares.
    FieldCount,
    /// A parameter is not of its type.
    Param(FieldError),
    /// The meshes hold more indices than 32 bits can count.
    TooManyIndices,
    /// The type of a parameter of a material is no type.
    Type(TypeError),
    /// An object names a procedural geometry that the file does not
    /// describe.
    UnknownGeometry,
}

/// The text, list, table, vector or number at a key of a table.
pub open spec fn text_at(table: Seq<(String, Value)>, key: Key) -> Result<Seq<char>, SceneError> {
    match as_string(field_of(table, key.text())) {
        Ok(text) => Ok(text),
        Err(wanted) => Err(SceneError::Field(key, wanted)),
    }
}

/// The list at a key of a table.
pub open spec fn list_at(table: Seq<(String, Value)>, key: Key) -> Result<Seq<Value>, SceneError> {
    match as_array(field_of(table, key.text())) {
        Ok(values) => Ok(values),
        Err(wanted) => Err(SceneError::Field(key, wanted)),
    }
}

/// The table at a key of a table.
pub open spec fn table_at(table: Seq<(String, Value)>, key: Key) -> Result<
    Seq<(String, Value)>,
    SceneError,
> {
    match as_table(field_of(table, key.text())) {
        Ok(entries) => Ok(entries),
        Err(wanted) => Err(SceneError::Field(key, wanted)),
    }
}

/// The vector at a key of a table.
pub open spec fn vec3_at(table: Seq<(String, Value)>, key: Key) -> Result<Vec3, SceneError> {
    match field_of(table, key.text()) {
        None => Err(SceneError::Field(key, Wanted::Present)),
        Some(value) => match vec3_of(value) {
            Ok(vector) => Ok(vector),
            Err(wanted) => Err(SceneError::Field(key, wanted)),
        },
    }
}

/// The number at a key of a table.
pub open spec fn number_at(table: Seq<(String, Value)>, key: Key) -> Result<u32, SceneError> {
    match field_of(table, key.text()) {
        None => Err(SceneError::Field(key, Wanted::Present)),
        Some(value) => match number_of(value) {
            Ok(float) => Ok(float),
            Err(wanted) => Err(SceneError::Field(key, wanted)),
        },
    }
}

/// The text at a key of a table.
pub fn text_field<'a>(table: &'a [(String, Value)], key: Key) -> (text: Result<
    &'a String,
    SceneError,
>)
    ensures
        match text {
            Ok(t) => text_at(table@, key) == Ok::<Seq<char>, SceneError>(t@),
            Err(e) => text_at(table@, key) == Err::<Seq<char>, SceneError>(e),
        },
{
    match get_string(table, key.as_str()) {
        Ok(text) => Ok(text),
        Err(wanted) => Err(SceneError::Field(key, wanted)),
    }
}

/// The list at a key of a table.
pub fn list_field<'a>(table: &'a [(String, Value)], key: Key) -> (values: Result<
    &'a Vec<Value>,
    SceneError,
>)
    ensures
        match values {
            Ok(v) => list_at(table@, key) == Ok::<Seq<Value>, SceneError>(v@),
            Err(e) => list_at(table@, key) == Err::<Seq<Value>, SceneError>(e),
        },
{
    match get_array(table, key.as_str()) {
        Ok(values) => Ok(values),
        Err(wanted) => Err(SceneError::Field(key, wanted)),
    }
}

/// The table at a key of a table.
pub fn table_field<'a>(table: &'a [(String, Value)], key: Key) -> (entries: Result<
    &'a Vec<(String, Value)>,
    SceneError,
>)
    ensures
        match entries {
            Ok(t) => table_at(table@, key) == Ok::<Seq<(String, Value)>, SceneError>(t@),
            Err(e) => table_at(table@, key) == Err::<Seq<(String, Value)>, SceneError>(e),
        },
{
    match get_table(table, key.as_str()) {
        Ok(entries) => Ok(entries),
        Err(wanted) => Err(SceneError::Field(key, wanted)),
    }
}

/// The vector at a key of a table.
pub fn vec3_field(table: &[(String, Value)], key: Key) -> (vector: Result<Vec3, SceneError>)
    ensures
        vector == vec3_at(table@, key),
{
    match get_field(table, key.as_str()) {
        None => Err(SceneError::Field(key, Wanted::Present)),
        Some(value) => match parse_toml_vec3(value) {
            Ok(vector) => Ok(vector),
            Err(wanted) => Err(SceneError::Field(key, wanted)),
        },
    }
}

/// The number at a key of a table.
pub fn number_field(table: &[(String, Value)], key: Key) -> (float: Result<u32, SceneError>)
    ensures
        float == number_at(table@, key),
{
    match get_field(table, key.as_str()) {
        None => Err(SceneError::Field(key, Wanted::Present)),
        Some(value) => match parse_toml_f32(value) {
            Ok(float) => Ok(float),
            Err(wanted) => Err(SceneError::Field(key, wanted)),
        },
    }
}

/// Index of the first of `names`, from `from` on, that is `name`.
pub open spec fn find_name(names: Seq<String>, name: Seq<char>, from: int) -> Option<int>
    decreases names.len() - from,
{
    if from < 0 || from >= names.len() {
        None
    } else if names[from]@ == name {
        Some(from)
    } else {
        find_name(names, name, from + 1)
    }
}

/// Index of the first of `names` that is `name`.
pub fn position_of(names: &[String], name: &str) -> (index: Option<usize>)
    ensures
        match index {
            Some(i) => find_name(names@, name@, 0) == Some(i as int) && i < names@.len(),
            None => find_name(names@, name@, 0) is None,
        },
{
    let mut i: usize = 0;
    while i < names.len()
        invariant
            i <= names@.len(),
            find_name(names@, name@, 0) == find_name(names@, name@, i as int),
        decreases names@.len() - i,
    {
        if same_text(names[i].as_str(), name) {
            return Some(i);
        }
        i += 1;
    }
    None
}

/// What a scene file says of the camera.
#[derive(Debug, PartialEq, Eq)]
pub struct CameraEntry<'a> {
    /// The field of view in degrees, a float.
    pub fov: u32,
    /// The script of the view transform.
    pub view: &'a String,
}

/// What a scene file says of the camera, as the contracts see it.
pub ghost struct CameraValue {
    pub fov: u32,
    pub view: Seq<char>,
}

/// What the table `conf` says of the camera.
pub open spec fn camera_of(conf: Seq<(String, Value)>) -> Result<CameraValue, SceneError> {
    match table_at(conf, Key::Camera) {
        Err(e) => Err(e),
        Ok(camera) => match number_at(camera, Key::Fov) {
            Err(e) => Err(e),
            Ok(fov) => match text_at(camera, Key::View) {
                Err(e) => Err(e),
                Ok(view) => Ok(CameraValue { fov, view }),
            },
        },
    }
}

/// What the scene file says of the camera.
pub fn parse_toml_camera<'a>(conf: &'a [(String, Value)]) -> (camera: Result<
    CameraEntry<'a>,
    SceneError,
>)
    ensures
        match camera {
            Ok(c) => camera_of(conf@) == Ok::<CameraValue, SceneError>(
                CameraValue { fov: c.fov, view: c.view@ },
            ),
            Err(e) => camera_of(conf@) == Err::<CameraValue, SceneError>(e),
        },
{
    let table = match table_field(conf, Key::Camera) {
        Ok(t) => t,
        Err(e) => {
            return Err(e);
        },
    };
    let fov = match number_field(table.as_slice(), Key::Fov) {
        Ok(f) => f,
        Err(e) => {
            return Err(e);
        },
    };
    let view = match text_field(table.as_slice(), Key::View) {
        Ok(v) => v,
        Err(e) => {
            return Err(e);
        },
    };
    Ok(CameraEntry { fov, view })
}

} // verus!
