//! What a scene file says of procedural geometry: shapes that a shader
//! intersects inside boxes, the objects that show them, and the discs
//! that stand for the directional lights.

use crate::scene::scenes::description::{
    list_at, list_field, table_at, table_field, text_at, text_field, Key, SceneError,
};
use crate::scene::scenes::lights::{light_count, LightEntry, LightValue};
use crate::scene::scenes::mesh::{
    Aabb, ProceduralGeometry, ProceduralObject, Shader, Vec3,
};
use crate::scene::type_lexer::same_text;
use crate::scene::value::{field_of, get_field, number_of, parse_toml_f32, Value, Wanted};
use vstd::prelude::*;

verus! {

/// The float 1, as a bit pattern.
pub const ONE: u32 = 0x3f80_0000;

/// The float -1, as a bit pattern.
pub const MINUS_ONE: u32 = 0xbf80_0000;

/// The float nearest to a thousandth, as a bit pattern.
pub const THOUSANDTH: u32 = 0x3a83_126f;

/// The float nearest to minus a thousandth, as a bit pattern.
pub const MINUS_THOUSANDTH: u32 = 0xba83_126f;

/// The box of the disc that stands for a directional light: a square of
/// side two around the origin, a thousandth thick to either side.
pub open spec fn emitter_box() -> Aabb {
    Aabb {
        min: Vec3 { x: MINUS_ONE, y: MINUS_ONE, z: MINUS_THOUSANDTH },
        max: Vec3 { x: ONE, y: ONE, z: THOUSANDTH },
    }
}

/// The box of the disc that stands for a directional light.
pub fn emitter_bounds() -> (bounds: Aabb)
    ensures
        bounds == emitter_box(),
{
    Aabb {
        min: Vec3 { x: MINUS_ONE, y: MINUS_ONE, z: MINUS_THOUSANDTH },
        max: Vec3 { x: ONE, y: ONE, z: THOUSANDTH },
    }
}

/// The box that a list of six numbers writes: the least corner, then the
/// greatest.
pub open spec fn aabb_of(value: Value) -> Result<Aabb, SceneError> {
    match value {
        Value::Array(values) => {
            let v = values@;
            if v.len() != 6 {
                Err(SceneError::Field(Key::Aabbs, Wanted::Six))
            } else if number_of(v[0]) is Ok && number_of(v[1]) is Ok && number_of(v[2]) is Ok
                && number_of(v[3]) is Ok && number_of(v[4]) is Ok && number_of(v[5]) is Ok {
                Ok(
                    Aabb {
                        min: Vec3 {
                            x: number_of(v[0])->Ok_0,
                            y: number_of(v[1])->Ok_0,
                            z: number_of(v[2])->Ok_0,
                        },
                        max: Vec3 {
                            x: number_of(v[3])->Ok_0,
                            y: number_of(v[4])->Ok_0,
                            z: number_of(v[5])->Ok_0,
                        },
                    },
                )
            } else {
                Err(SceneError::Field(Key::Aabbs, Wanted::Number))
            }
        },
        _ => Err(SceneError::Field(Key::Aabbs, Wanted::Six)),
    }
}

/// The boxes that the first `n` of `values` write.
pub open spec fn aabbs_of(values: Seq<Value>, n: int) -> Result<Seq<Aabb>, SceneError>
    decreases n,
{
    if n <= 0 {
        Ok(Seq::empty())
    } else {
        match aabbs_of(values, n - 1) {
            Err(e) => Err(e),
            Ok(front) => match aabb_of(values[n - 1]) {
                Ok(aabb) => Ok(front.push(aabb)),
                Err(e) => Err(e),
            },
        }
    }
}

/// What a scene file says of a procedural geometry.
#[derive(Debug, PartialEq, Eq)]
pub struct GeometryEntry<'a> {
    pub name: &'a String,
    /// The file of the shader that intersects a ray with the shape.
    pub intersection_shader: &'a String,
    /// The file of the shader that colours a hit.
    pub closest_hit_shader: &'a String,
    /// The boxes that hold the shape.
    pub aabbs: Vec<Aabb>,
}

/// What a scene file says of a procedural geometry, as the contracts see
/// it.
pub ghost struct GeometryValue {
    pub name: Seq<char>,
    pub intersection_shader: Seq<char>,
    pub closest_hit_shader: Seq<char>,
    pub aabbs: Seq<Aabb>,
}

impl<'a> View for GeometryEntry<'a> {
    type V = GeometryValue;

    open spec fn view(&self) -> GeometryValue {
        GeometryValue {
            name: self.name@,
            intersection_shader: self.intersection_shader@,
            closest_hit_shader: self.closest_hit_shader@,
            aabbs: self.aabbs@,
        }
    }
}

impl<'a> GeometryEntry<'a> {
    /// The geometry of the scene, once its shaders are loaded.
    pub fn geometry(&self, intersection_shader: Shader, closest_hit_shader: Shader) -> (geometry:
        ProceduralGeometry)
        ensures
            geometry.aabbs@ == self.aabbs@,
            geometry.intersection_shader == intersection_shader,
            geometry.closest_hit_shader == closest_hit_shader,
    {
        ProceduralGeometry { aabbs: self.aabbs.clone(), intersection_shader, closest_hit_shader }
    }
}

/// What the table `geometry` says of a procedural geometry.
pub open spec fn geometry_of(geometry: Seq<(String, Value)>) -> Result<GeometryValue, SceneError> {
    match text_at(geometry, Key::Name) {
        Err(e) => Err(e),
        Ok(name) => match text_at(geometry, Key::IntersectionShader) {
            Err(e) => Err(e),
            Ok(intersection_shader) => match text_at(geometry, Key::ClosestHitShader) {
                Err(e) => Err(e),
                Ok(closest_hit_shader) => match list_at(geometry, Key::Aabbs) {
                    Err(e) => Err(e),
                    Ok(values) => match aabbs_of(values, values.len() as int) {
                        Err(e) => Err(e),
                        Ok(aabbs) => Ok(
                            GeometryValue { name, intersection_shader, closest_hit_shader, aabbs },
                        ),
                    },
                },
            },
        },
    }
}

/// What the first `n` of `values` say of the procedural geometries.
pub open spec fn geometries_of(values: Seq<Value>, n: int) -> Result<
    Seq<GeometryValue>,
    SceneError,
>
    decreases n,
{
    if n <= 0 {
        Ok(Seq::empty())
    } else {
        match geometries_of(values, n - 1) {
            Err(e) => Err(e),
            Ok(front) => match values[n - 1] {
                Value::Table(geometry) => match geometry_of(geometry@) {
                    Ok(entry) => Ok(front.push(entry)),
                    Err(e) => Err(e),
                },
                _ => Err(SceneError::Entry(Key::ProceduralGeometry)),
            },
        }
    }
}

/// The list at a key of a table; none where the key is missing or its
/// value is no list.
pub open spec fn list_or_none(table: Seq<(String, Value)>, key: Key) -> Seq<Value> {
    match field_of(table, key.text()) {
        Some(Value::Array(values)) => values@,
        _ => Seq::empty(),
    }
}

/// What the scene file `conf` says of the procedural geometries. A file
/// need not speak of any.
pub open spec fn scene_geometries(conf: Seq<(String, Value)>) -> Result<
    Seq<GeometryValue>,
    SceneError,
> {
    let values = list_or_none(conf, Key::ProceduralGeometry);
    geometries_of(values, values.len() as int)
}

/// What a scene file says of an object that shows a procedural geometry.
#[derive(Debug, PartialEq, Eq)]
pub struct ProceduralEntry<'a> {
    /// The script of the transform.
    pub transform: &'a String,
    /// Index of the geometry among the procedural geometries.
    pub geometry_index: usize,
    /// The number that the shaders get for the object.
    pub custom_index: u32,
}

/// What a scene file says of an object that shows a procedural geometry,
/// as the contracts see it.
pub ghost struct ProceduralValue {
    pub transform: Seq<char>,
    pub geometry_index: usize,
    pub custom_index: u32,
}

impl<'a> View for ProceduralEntry<'a> {
    type V = ProceduralValue;

    open spec fn view(&self) -> ProceduralValue {
        ProceduralValue {
            transform: self.transform@,
            geometry_index: self.geometry_index,
            custom_index: self.custom_index,
        }
    }
}

impl<'a> ProceduralEntry<'a> {
    /// The object of the scene, once its transform is worked out.
    pub fn object(&self, transform: [u32; 16]) -> (object: ProceduralObject)
        ensures
            object == (ProceduralObject {
                transform,
                geometry_index: self.geometry_index,
                custom_index: self.custom_index,
            }),
    {
        ProceduralObject {
            transform,
            geometry_index: self.geometry_index,
            custom_index: self.custom_index,
        }
    }
}

/// Index of the last of the first `n` of `geometries` that has the name
/// `name`: a later geometry of a name replaces an earlier one.
pub open spec fn find_geometry(geometries: Seq<GeometryEntry>, name: Seq<char>, n: int) -> Option<
    int,
>
    decreases n,
{
    if n <= 0 {
        None
    } else if geometries[n - 1].name@ == name {
        Some(n - 1)
    } else {
        find_geometry(geometries, name, n - 1)
    }
}

/// The number that the shaders get for an object: the low 32 bits of the
/// integer that the table gives, and zero where it gives none.
pub open spec fn custom_index_of(object: Seq<(String, Value)>) -> Result<u32, SceneError> {
    match field_of(object, Key::CustomIndex.text()) {
        None => Ok(0),
        Some(Value::Integer { value, float }) => Ok((value & 0xffff_ffff) as u32),
        Some(_) => Err(SceneError::Field(Key::CustomIndex, Wanted::Integer)),
    }
}

/// What the table `object` says of an object that shows one of
/// `geometries`.
pub open spec fn procedural_of(
    object: Seq<(String, Value)>,
    geometries: Seq<GeometryEntry>,
) -> Result<ProceduralValue, SceneError> {
    match text_at(object, Key::Geometry) {
        Err(e) => Err(e),
        Ok(name) => match find_geometry(geometries, name, geometries.len() as int) {
            None => Err(SceneError::UnknownGeometry),
            Some(index) => match text_at(object, Key::Transform) {
                Err(e) => Err(e),
                Ok(transform) => match custom_index_of(object) {
                    Err(e) => Err(e),
                    Ok(custom_index) => Ok(
                        ProceduralValue {
                            transform,
                            geometry_index: index as usize,
                            custom_index,
                        },
                    ),
                },
            },
        },
    }
}

/// What the first `n` of `values` say of the objects that show
/// `geometries`.
pub open spec fn procedurals_of(
    values: Seq<Value>,
    geometries: Seq<GeometryEntry>,
    n: int,
) -> Result<Seq<ProceduralValue>, SceneError>
    decreases n,
{
    if n <= 0 {
        Ok(Seq::empty())
    } else {
        match procedurals_of(values, geometries, n - 1) {
            Err(e) => Err(e),
            Ok(front) => match values[n - 1] {
                Value::Table(object) => match procedural_of(object@, geometries) {
                    Ok(entry) => Ok(front.push(entry)),
                    Err(e) => Err(e),
                },
                _ => Err(SceneError::Entry(Key::ProceduralObject)),
            },
        }
    }
}

/// What the scene file `conf` says of the objects that show `geometries`.
/// A file need not speak of any.
pub open spec fn scene_procedurals(
    conf: Seq<(String, Value)>,
    geometries: Seq<GeometryEntry>,
) -> Result<Seq<ProceduralValue>, SceneError> {
    let values = list_or_none(conf, Key::ProceduralObject);
    procedurals_of(values, geometries, values.len() as int)
}

/// The disc that stands for a directional light.
#[derive(Clone, Copy, Debug, PartialEq, Eq, Structural)]
pub struct Emitter {
    /// Index of the light among the lights of the scene.
    pub light_index: u32,
    pub position: Vec3,
    pub direction: Vec3,
    pub radius: u32,
}

/// The discs of the directional lights among the first `n` of `lights`.
/// An area light counts for as many lights as its mesh has triangles.
pub open spec fn emitters_of(lights: Seq<LightValue>, n: int) -> Result<Seq<Emitter>, SceneError>
    decreases n,
{
    if n <= 0 {
        Ok(Seq::empty())
    } else {
        match emitters_of(lights, n - 1) {
            Err(e) => Err(e),
            Ok(front) => match lights[n - 1] {
                LightValue::Directional { color, position, direction, radius } => {
                    if light_count(lights, n - 1) > u32::MAX {
                        Err(SceneError::TooManyLights)
                    } else {
                        Ok(
                            front.push(
                                Emitter {
                                    light_index: light_count(lights, n - 1) as u32,
                                    position,
                                    direction,
                                    radius,
                                },
                            ),
                        )
                    }
                },
                _ => Ok(front),
            },
        }
    }
}

/// The discs of the directional lights of a scene and their shaders. Their
/// geometry is the box of `emitter_box`, and comes behind the geometries
/// that the file describes.
#[derive(Debug, PartialEq, Eq)]
pub struct EmitterPlan<'a> {
    pub intersection_shader: &'a String,
    pub closest_hit_shader: &'a String,
    /// Index of the geometry of the discs among the procedural geometries:
    /// the number of geometries that the file describes.
    pub geometry_index: usize,
    pub emitters: Vec<Emitter>,
}

/// The discs of the directional lights and their shaders, as the contracts
/// see them.
pub ghost struct EmitterPlanValue {
    pub intersection_shader: Seq<char>,
    pub closest_hit_shader: Seq<char>,
    pub geometry_index: nat,
    pub emitters: Seq<Emitter>,
}

impl<'a> View for EmitterPlan<'a> {
    type V = EmitterPlanValue;

    open spec fn view(&self) -> EmitterPlanValue {
        EmitterPlanValue {
            intersection_shader: self.intersection_shader@,
            closest_hit_shader: self.closest_hit_shader@,
            geometry_index: self.geometry_index as nat,
            emitters: self.emitters@,
        }
    }
}

impl<'a> EmitterPlan<'a> {
    /// The geometry of the discs, once its shaders are loaded: the one box
    /// of `emitter_box`.
    pub fn geometry(&self, intersection_shader: Shader, closest_hit_shader: Shader) -> (geometry:
        ProceduralGeometry)
        ensures
            geometry.aabbs@ == seq![emitter_box()],
            geometry.intersection_shader == intersection_shader,
            geometry.closest_hit_shader == closest_hit_shader,
    {
        let mut aabbs: Vec<Aabb> = Vec::new();
        aabbs.push(emitter_bounds());
        ProceduralGeometry { aabbs, intersection_shader, closest_hit_shader }
    }

    /// The object that shows the disc `emitter`, once its transform is
    /// worked out: an instance of the geometry of the discs. The shaders
    /// find the light by the number of the object.
    pub fn object(&self, emitter: &Emitter, transform: [u32; 16]) -> (object: ProceduralObject)
        ensures
            object == (ProceduralObject {
                transform,
                geometry_index: self.geometry_index,
                custom_index: emitter.light_index,
            }),
    {
        ProceduralObject {
            transform,
            geometry_index: self.geometry_index,
            custom_index: emitter.light_index,
        }
    }
}

/// The discs of the directional lights among `lights` and the shaders that
/// the scene file `conf` names for them; none where no light is
/// directional. Only then must the file name the two shaders. The geometry
/// of the discs has the index that follows those of the geometries of the
/// file.
pub open spec fn emitter_plan_of(conf: Seq<(String, Value)>, lights: Seq<LightValue>) -> Result<
    Option<EmitterPlanValue>,
    SceneError,
> {
    match emitters_of(lights, lights.len() as int) {
        Err(e) => Err(e),
        Ok(emitters) => if emitters.len() == 0 {
            Ok(None)
        } else {
            match table_at(conf, Key::GlobalShaders) {
                Err(e) => Err(e),
                Ok(global) => match text_at(global, Key::DirectionalEmitterInt) {
                    Err(e) => Err(e),
                    Ok(intersection_shader) => match text_at(global, Key::DirectionalEmitterHit) {
                        Err(e) => Err(e),
                        Ok(closest_hit_shader) => Ok(
                            Some(
                                EmitterPlanValue {
                                    intersection_shader,
                                    closest_hit_shader,
                                    geometry_index: list_or_none(
                                        conf,
                                        Key::ProceduralGeometry,
                                    ).len(),
                                    emitters,
                                },
                            ),
                        ),
                    },
                },
            }
        },
    }
}

/// The geometries that are read are as many as the file lists, so that the
/// geometry of the discs comes right behind them.
pub proof fn lemma_geometry_count(values: Seq<Value>, n: int)
    requires
        0 <= n,
        geometries_of(values, n) is Ok,
    ensures
        geometries_of(values, n)->Ok_0.len() == n,
    decreases n,
{
    if n > 0 {
        lemma_geometry_count(values, n - 1);
    }
}

/// Where the file describes its geometries without fault, the geometry of
/// the discs has the index that follows theirs.
pub proof fn lemma_emitter_geometry_follows(conf: Seq<(String, Value)>, lights: Seq<LightValue>)
    requires
        scene_geometries(conf) is Ok,
        emitter_plan_of(conf, lights) matches Ok(Some(_)),
    ensures
        emitter_plan_of(conf, lights)->Ok_0->0.geometry_index == scene_geometries(conf)->Ok_0.len(),
{
    let values = list_or_none(conf, Key::ProceduralGeometry);
    lemma_geometry_count(values, values.len() as int);
}

/// A fault among the first boxes is the fault of all.
pub proof fn lemma_aabbs_fault(values: Seq<Value>, some: int, all: int)
    requires
        0 <= some <= all,
        aabbs_of(values, some) is Err,
    ensures
        aabbs_of(values, all) == aabbs_of(values, some),
    decreases all - some,
{
    if some < all {
        lemma_aabbs_fault(values, some, all - 1);
    }
}

/// A fault among the first geometries is the fault of all.
pub proof fn lemma_geometries_fault(values: Seq<Value>, some: int, all: int)
    requires
        0 <= some <= all,
        geometries_of(values, some) is Err,
    ensures
        geometries_of(values, all) == geometries_of(values, some),
    decreases all - some,
{
    if some < all {
        lemma_geometries_fault(values, some, all - 1);
    }
}

/// A fault among the first objects is the fault of all.
pub proof fn lemma_procedurals_fault(
    values: Seq<Value>,
    geometries: Seq<GeometryEntry>,
    some: int,
    all: int,
)
    requires
        0 <= some <= all,
        procedurals_of(values, geometries, some) is Err,
    ensures
        procedurals_of(values, geometries, all) == procedurals_of(values, geometries, some),
    decreases all - some,
{
    if some < all {
        lemma_procedurals_fault(values, geometries, some, all - 1);
    }
}

/// A fault among the first lights is the fault of all.
pub proof fn lemma_emitters_fault(lights: Seq<LightValue>, some: int, all: int)
    requires
        0 <= some <= all,
        emitters_of(lights, some) is Err,
    ensures
        emitters_of(lights, all) == emitters_of(lights, some),
    decreases all - some,
{
    if some < all {
        lemma_emitters_fault(lights, some, all - 1);
    }
}

/// The list at a key of a table, where there is one.
fn list_if_any<'a>(table: &'a [(String, Value)], key: Key) -> (values: &'a [Value])
    ensures
        values@ == list_or_none(table@, key),
{
    match get_field(table, key.as_str()) {
        Some(Value::Array(values)) => values.as_slice(),
        _ => {
            let none: &'a [Value] = &[];
            assert(none@ =~= Seq::<Value>::empty());
            none
        },
    }
}

/// The box that a list of six numbers writes.
pub fn parse_toml_aabb(value: &Value) -> (aabb: Result<Aabb, SceneError>)
    ensures
        aabb == aabb_of(*value),
{
    let values = match value {
        Value::Array(values) => values,
        _ => {
            return Err(SceneError::Field(Key::Aabbs, Wanted::Six));
        },
    };
    if values.len() != 6 {
        return Err(SceneError::Field(Key::Aabbs, Wanted::Six));
    }
    match (
        parse_toml_f32(&values[0]),
        parse_toml_f32(&values[1]),
        parse_toml_f32(&values[2]),
        parse_toml_f32(&values[3]),
        parse_toml_f32(&values[4]),
        parse_toml_f32(&values[5]),
    ) {
        (Ok(min_x), Ok(min_y), Ok(min_z), Ok(max_x), Ok(max_y), Ok(max_z)) => Ok(
            Aabb {
                min: Vec3 { x: min_x, y: min_y, z: min_z },
                max: Vec3 { x: max_x, y: max_y, z: max_z },
            },
        ),
        _ => Err(SceneError::Field(Key::Aabbs, Wanted::Number)),
    }
}

/// The boxes that `values` write.
fn parse_toml_aabbs(values: &[Value]) -> (aabbs: Result<Vec<Aabb>, SceneError>)
    ensures
        match aabbs {
            Ok(a) => aabbs_of(values@, values@.len() as int) == Ok::<Seq<Aabb>, SceneError>(a@),
            Err(e) => aabbs_of(values@, values@.len() as int) == Err::<Seq<Aabb>, SceneError>(e),
        },
{
    let mut aabbs: Vec<Aabb> = Vec::new();
    let mut i: usize = 0;
    while i < values.len()
        invariant
            i <= values@.len(),
            aabbs_of(values@, i as int) == Ok::<Seq<Aabb>, SceneError>(aabbs@),
        decreases values@.len() - i,
    {
        match parse_toml_aabb(&values[i]) {
            Ok(aabb) => {
                aabbs.push(aabb);
            },
            Err(e) => {
                proof {
                    lemma_aabbs_fault(values@, i + 1, values@.len() as int);
                }
                return Err(e);
            },
        }
        i += 1;
    }
    Ok(aabbs)
}

/// Reads one procedural geometry.
fn parse_toml_geometry<'a>(geometry: &'a [(String, Value)]) -> (entry: Result<
    GeometryEntry<'a>,
    SceneError,
>)
    ensures
        match entry {
            Ok(g) => geometry_of(geometry@) == Ok::<GeometryValue, SceneError>(g@),
            Err(e) => geometry_of(geometry@) == Err::<GeometryValue, SceneError>(e),
        },
{
    let name = match text_field(geometry, Key::Name) {
        Ok(n) => n,
        Err(e) => {
            return Err(e);
        },
    };
    let intersection_shader = match text_field(geometry, Key::IntersectionShader) {
        Ok(s) => s,
        Err(e) => {
            return Err(e);
        },
    };
    let closest_hit_shader = match text_field(geometry, Key::ClosestHitShader) {
        Ok(s) => s,
        Err(e) => {
            return Err(e);
        },
    };
    let values = match list_field(geometry, Key::Aabbs) {
        Ok(v) => v,
        Err(e) => {
            return Err(e);
        },
    };
    match parse_toml_aabbs(values.as_slice()) {
        Ok(aabbs) => Ok(GeometryEntry { name, intersection_shader, closest_hit_shader, aabbs }),
        Err(e) => Err(e),
    }
}

/// What the scene file `conf` says of the procedural geometries.
pub fn parse_procedural_geometries<'a>(conf: &'a [(String, Value)]) -> (entries: Result<
    Vec<GeometryEntry<'a>>,
    SceneError,
>)
    ensures
        match entries {
            Ok(g) => scene_geometries(conf@) == Ok::<Seq<GeometryValue>, SceneError>(
                g@.map_values(|g: GeometryEntry<'a>| g@),
            ),
            Err(e) => scene_geometries(conf@) == Err::<Seq<GeometryValue>, SceneError>(e),
        },
{
    let values = list_if_any(conf, Key::ProceduralGeometry);
    let mut entries: Vec<GeometryEntry<'a>> = Vec::new();
    let mut i: usize = 0;
    assert(entries@.map_values(|g: GeometryEntry<'a>| g@) =~= Seq::<GeometryValue>::empty());
    while i < values.len()
        invariant
            i <= values@.len(),
            values@ == list_or_none(conf@, Key::ProceduralGeometry),
            geometries_of(values@, i as int) == Ok::<Seq<GeometryValue>, SceneError>(
                entries@.map_values(|g: GeometryEntry<'a>| g@),
            ),
        decreases values@.len() - i,
    {
        let ghost front = entries@.map_values(|g: GeometryEntry<'a>| g@);
        let entry = match &values[i] {
            Value::Table(geometry) => match parse_toml_geometry(geometry.as_slice()) {
                Ok(entry) => entry,
                Err(e) => {
                    proof {
                        lemma_geometries_fault(values@, i + 1, values@.len() as int);
                    }
                    return Err(e);
                },
            },
            _ => {
                proof {
                    lemma_geometries_fault(values@, i + 1, values@.len() as int);
                }
                return Err(SceneError::Entry(Key::ProceduralGeometry));
            },
        };
        let ghost value = entry@;
        entries.push(entry);
        assert(entries@.map_values(|g: GeometryEntry<'a>| g@) =~= front.push(value));
        i += 1;
    }
    Ok(entries)
}

/// Index of the last of `geometries` that has the name `name`.
fn geometry_named(geometries: &[GeometryEntry], name: &str) -> (index: Option<usize>)
    ensures
        match index {
            Some(i) => find_geometry(geometries@, name@, geometries@.len() as int) == Some(
                i as int,
            ) && i < geometries@.len(),
            None => find_geometry(geometries@, name@, geometries@.len() as int) is None,
        },
{
    let mut i: usize = geometries.len();
    while i > 0
        invariant
            i <= geometries@.len(),
            find_geometry(geometries@, name@, geometries@.len() as int) == find_geometry(
                geometries@,
                name@,
                i as int,
            ),
        decreases i,
    {
        if same_text(geometries[i - 1].name.as_str(), name) {
            return Some(i - 1);
        }
        i -= 1;
    }
    None
}

/// The number that the shaders get for an object.
fn parse_custom_index(object: &[(String, Value)]) -> (index: Result<u32, SceneError>)
    ensures
        index == custom_index_of(object@),
{
    match get_field(object, Key::CustomIndex.as_str()) {
        None => Ok(0),
        Some(Value::Integer { value, float: _ }) => Ok((*value & 0xffff_ffff) as u32),
        Some(_) => Err(SceneError::Field(Key::CustomIndex, Wanted::Integer)),
    }
}

/// Reads one object that shows a procedural geometry.
fn parse_procedural_object<'a>(
    object: &'a [(String, Value)],
    geometries: &[GeometryEntry],
) -> (entry: Result<ProceduralEntry<'a>, SceneError>)
    ensures
        match entry {
            Ok(o) => procedural_of(object@, geometries@) == Ok::<ProceduralValue, SceneError>(o@),
            Err(e) => procedural_of(object@, geometries@) == Err::<ProceduralValue, SceneError>(
                e,
            ),
        },
{
    let name = match text_field(object, Key::Geometry) {
        Ok(n) => n,
        Err(e) => {
            return Err(e);
        },
    };
    let geometry_index = match geometry_named(geometries, name.as_str()) {
        Some(i) => i,
        None => {
            return Err(SceneError::UnknownGeometry);
        },
    };
    let transform = match text_field(object, Key::Transform) {
        Ok(t) => t,
        Err(e) => {
            return Err(e);
        },
    };
    match parse_custom_index(object) {
        Ok(custom_index) => Ok(ProceduralEntry { transform, geometry_index, custom_index }),
        Err(e) => Err(e),
    }
}

/// What the scene file `conf` says of the objects that show `geometries`.
pub fn parse_procedural_objects<'a>(
    conf: &'a [(String, Value)],
    geometries: &[GeometryEntry],
) -> (entries: Result<Vec<ProceduralEntry<'a>>, SceneError>)
    ensures
        match entries {
            Ok(o) => scene_procedurals(conf@, geometries@) == Ok::<
                Seq<ProceduralValue>,
                SceneError,
            >(o@.map_values(|o: ProceduralEntry<'a>| o@)),
            Err(e) => scene_procedurals(conf@, geometries@) == Err::<
                Seq<ProceduralValue>,
                SceneError,
            >(e),
        },
{
    let values = list_if_any(conf, Key::ProceduralObject);
    let mut entries: Vec<ProceduralEntry<'a>> = Vec::new();
    let mut i: usize = 0;
    assert(entries@.map_values(|o: ProceduralEntry<'a>| o@) =~= Seq::<ProceduralValue>::empty());
    while i < values.len()
        invariant
            i <= values@.len(),
            values@ == list_or_none(conf@, Key::ProceduralObject),
            procedurals_of(values@, geometries@, i as int) == Ok::<
                Seq<ProceduralValue>,
                SceneError,
            >(entries@.map_values(|o: ProceduralEntry<'a>| o@)),
        decreases values@.len() - i,
    {
        let ghost front = entries@.map_values(|o: ProceduralEntry<'a>| o@);
        let entry = match &values[i] {
            Value::Table(object) => match parse_procedural_object(object.as_slice(), geometries) {
                Ok(entry) => entry,
                Err(e) => {
                    proof {
                        lemma_procedurals_fault(
                            values@,
                            geometries@,
                            i + 1,
                            values@.len() as int,
                        );
                    }
                    return Err(e);
                },
            },
            _ => {
                proof {
                    lemma_procedurals_fault(values@, geometries@, i + 1, values@.len() as int);
                }
                return Err(SceneError::Entry(Key::ProceduralObject));
            },
        };
        let ghost value = entry@;
        entries.push(entry);
        assert(entries@.map_values(|o: ProceduralEntry<'a>| o@) =~= front.push(value));
        i += 1;
    }
    Ok(entries)
}

/// The discs of the directional lights among `lights`.
fn directional_emitters(lights: &[LightEntry]) -> (emitters: Result<Vec<Emitter>, SceneError>)
    ensures
        match emitters {
            Ok(d) => emitters_of(lights@.map_values(|l: LightEntry| l@), lights@.len() as int)
                == Ok::<Seq<Emitter>, SceneError>(d@),
            Err(e) => emitters_of(lights@.map_values(|l: LightEntry| l@), lights@.len() as int)
                == Err::<Seq<Emitter>, SceneError>(e),
        },
{
    let ghost values = lights@.map_values(|l: LightEntry| l@);
    let mut emitters: Vec<Emitter> = Vec::new();
    let mut count: u64 = 0;
    let mut i: usize = 0;
    while i < lights.len()
        invariant
            i <= lights@.len(),
            values == lights@.map_values(|l: LightEntry| l@),
            count == light_count(values, i as int) || (count == u64::MAX && light_count(
                values,
                i as int,
            ) >= u64::MAX),
            emitters_of(values, i as int) == Ok::<Seq<Emitter>, SceneError>(emitters@),
        decreases lights@.len() - i,
    {
        assert(values[i as int] == lights@[i as int]@);
        let more: u64 = match &lights[i] {
            LightEntry::Directional { color: _, position, direction, radius } => {
                if count > u32::MAX as u64 {
                    proof {
                        lemma_emitters_fault(values, i + 1, values.len() as int);
                    }
                    return Err(SceneError::TooManyLights);
                }
                emitters.push(
                    Emitter {
                        light_index: count as u32,
                        position: *position,
                        direction: *direction,
                        radius: *radius,
                    },
                );
                1
            },
            LightEntry::Area { triangles, .. } => *triangles as u64,
            LightEntry::Point { .. } => 1,
        };
        count = count.saturating_add(more);
        i += 1;
    }
    Ok(emitters)
}

/// The discs of the directional lights among `lights` and the shaders that
/// the scene file `conf` names for them; none where no light is
/// directional.
pub fn parse_directional_emitters<'a>(conf: &'a [(String, Value)], lights: &[LightEntry]) -> (plan:
    Result<Option<EmitterPlan<'a>>, SceneError>)
    ensures
        match plan {
            Ok(Some(p)) => emitter_plan_of(conf@, lights@.map_values(|l: LightEntry| l@)) == Ok::<
                Option<EmitterPlanValue>,
                SceneError,
            >(Some(p@)),
            Ok(None) => emitter_plan_of(conf@, lights@.map_values(|l: LightEntry| l@)) == Ok::<
                Option<EmitterPlanValue>,
                SceneError,
            >(None),
            Err(e) => emitter_plan_of(conf@, lights@.map_values(|l: LightEntry| l@)) == Err::<
                Option<EmitterPlanValue>,
                SceneError,
            >(e),
        },
{
    let emitters = match directional_emitters(lights) {
        Ok(d) => d,
        Err(e) => {
            return Err(e);
        },
    };
    if emitters.len() == 0 {
        return Ok(None);
    }
    let global = match table_field(conf, Key::GlobalShaders) {
        Ok(g) => g,
        Err(e) => {
            return Err(e);
        },
    };
    let intersection_shader = match text_field(global.as_slice(), Key::DirectionalEmitterInt) {
        Ok(s) => s,
        Err(e) => {
            return Err(e);
        },
    };
    let closest_hit_shader = match text_field(global.as_slice(), Key::DirectionalEmitterHit) {
        Ok(s) => s,
        Err(e) => {
            return Err(e);
        },
    };
    let geometry_index: usize = list_if_any(conf, Key::ProceduralGeometry).len();
    Ok(Some(EmitterPlan { intersection_shader, closest_hit_shader, geometry_index, emitters }))
}

} // verus!
