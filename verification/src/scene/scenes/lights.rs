//! What a scene file says of the lights of a scene.
//!
//! The meshes are loaded before the lights are read: an area light names
//! its mesh and stands for one light for each triangle of it.

use crate::scene::scenes::description::{
    find_name, list_at, list_field, position_of, text_at, text_field, vec3_at, vec3_field,
    number_at, number_field, Key, SceneError,
};
use crate::scene::scenes::mesh::{Light, Object, Vec3};
use crate::scene::type_lexer::same_text;
use crate::scene::value::Value;
use vstd::prelude::*;

verus! {

/// What a scene file says of a light.
#[derive(Debug, PartialEq, Eq)]
pub enum LightEntry<'a> {
    Point { color: Vec3, position: Vec3 },
    /// A mesh that gives light: one triangle light for each of its
    /// triangles, and an object that shows it.
    Area {
        color: Vec3,
        /// The script of the transform of the mesh.
        transform: &'a String,
        /// Index of the mesh among the loaded meshes.
        mesh_i: usize,
        /// Index of the first of its triangle lights among all lights.
        first_light: u32,
        /// The number of its triangles.
        triangles: usize,
    },
    Directional { color: Vec3, position: Vec3, direction: Vec3, radius: u32 },
}

/// What a scene file says of a light, as the contracts see it.
pub ghost enum LightValue {
    Point { color: Vec3, position: Vec3 },
    Area { color: Vec3, transform: Seq<char>, mesh_i: usize, first_light: u32, triangles: usize },
    Directional { color: Vec3, position: Vec3, direction: Vec3, radius: u32 },
}

impl<'a> View for LightEntry<'a> {
    type V = LightValue;

    open spec fn view(&self) -> LightValue {
        match *self {
            LightEntry::Point { color, position } => LightValue::Point { color, position },
            LightEntry::Area { color, transform, mesh_i, first_light, triangles } => {
                LightValue::Area { color, transform: transform@, mesh_i, first_light, triangles }
            },
            LightEntry::Directional { color, position, direction, radius } => {
                LightValue::Directional { color, position, direction, radius }
            },
        }
    }
}

/// Index of the hit shader of the emitters among the hit shaders.
pub const EMITTER_BRDF: usize = 0;

impl<'a> LightEntry<'a> {
    /// The light of the scene that a point light or a directional light
    /// is. An area light is none: it stands for the triangles of its mesh.
    pub fn light(&self) -> (light: Option<Light>)
        ensures
            light == match self@ {
                LightValue::Point { color, position } => Some(Light::Point { color, position }),
                LightValue::Directional { color, position, direction, radius } => Some(
                    Light::Directional { color, position, direction, radius },
                ),
                LightValue::Area { .. } => None,
            },
    {
        match self {
            LightEntry::Point { color, position } => Some(
                Light::Point { color: *color, position: *position },
            ),
            LightEntry::Directional { color, position, direction, radius } => Some(
                Light::Directional {
                    color: *color,
                    position: *position,
                    direction: *direction,
                    radius: *radius,
                },
            ),
            LightEntry::Area { .. } => None,
        }
    }

    /// The object that shows an area light, once its transform is worked
    /// out; other lights have none. Its material is that of the emitters,
    /// which has no parameters, and in place of the index of a vertex it
    /// carries the index of its first light.
    pub fn object(&self, transform: [u32; 16]) -> (object: Option<Object>)
        ensures
            match self@ {
                LightValue::Area { mesh_i, first_light, .. } => object is Some
                    && object.unwrap().transform == transform && object.unwrap().mesh_i == mesh_i
                    && object.unwrap().brdf_i == EMITTER_BRDF
                    && object.unwrap().brdf_params@.len() == 0 && object.unwrap().vertex_index
                    == first_light,
                _ => object is None,
            },
    {
        match self {
            LightEntry::Area { mesh_i, first_light, .. } => Some(
                Object {
                    transform,
                    mesh_i: *mesh_i,
                    brdf_i: EMITTER_BRDF,
                    brdf_params: Vec::new(),
                    vertex_index: *first_light,
                },
            ),
            _ => None,
        }
    }
}

impl LightValue {
    /// How many lights of the scene the entry stands for.
    pub open spec fn lights(self) -> nat {
        match self {
            LightValue::Area { triangles, .. } => triangles as nat,
            _ => 1,
        }
    }
}

/// What the table `light` says of a light, where `first` lights come before
/// it, the loaded meshes have the names `names`, and each holds as many
/// indices as `counts` says.
pub open spec fn light_of(
    light: Seq<(String, Value)>,
    names: Seq<String>,
    counts: Seq<usize>,
    first: nat,
) -> Result<LightValue, SceneError> {
    match text_at(light, Key::Type) {
        Err(e) => Err(e),
        Ok(kind) => match vec3_at(light, Key::Color) {
            Err(e) => Err(e),
            Ok(color) => if kind == "point"@ {
                match vec3_at(light, Key::Position) {
                    Err(e) => Err(e),
                    Ok(position) => Ok(LightValue::Point { color, position }),
                }
            } else if kind == "area"@ {
                match text_at(light, Key::Transform) {
                    Err(e) => Err(e),
                    Ok(transform) => match text_at(light, Key::Mesh) {
                        Err(e) => Err(e),
                        Ok(mesh) => match find_name(names, mesh, 0) {
                            None => Err(SceneError::UnknownMesh),
                            Some(mesh_i) => if mesh_i >= counts.len() {
                                Err(SceneError::UnknownMesh)
                            } else if counts[mesh_i] % 3 != 0 {
                                Err(SceneError::FaceList)
                            } else if first > u32::MAX {
                                Err(SceneError::TooManyLights)
                            } else {
                                Ok(
                                    LightValue::Area {
                                        color,
                                        transform,
                                        mesh_i: mesh_i as usize,
                                        first_light: first as u32,
                                        triangles: (counts[mesh_i] / 3) as usize,
                                    },
                                )
                            },
                        },
                    },
                }
            } else if kind == "directional"@ {
                match vec3_at(light, Key::Position) {
                    Err(e) => Err(e),
                    Ok(position) => match vec3_at(light, Key::Direction) {
                        Err(e) => Err(e),
                        Ok(direction) => match number_at(light, Key::Radius) {
                            Err(e) => Err(e),
                            Ok(radius) => Ok(
                                LightValue::Directional { color, position, direction, radius },
                            ),
                        },
                    },
                }
            } else {
                Err(SceneError::UnknownLightType)
            },
        },
    }
}

/// The lights that the first `n` entries of a list stand for.
pub open spec fn light_count(entries: Seq<LightValue>, n: int) -> nat
    decreases n,
{
    if n <= 0 {
        0
    } else {
        light_count(entries, n - 1) + entries[n - 1].lights()
    }
}

/// What the first `n` values of `lights` say of the lights, or the first
/// fault among them.
pub open spec fn lights_of(
    lights: Seq<Value>,
    names: Seq<String>,
    counts: Seq<usize>,
    n: int,
) -> Result<Seq<LightValue>, SceneError>
    decreases n,
{
    if n <= 0 {
        Ok(Seq::empty())
    } else {
        match lights_of(lights, names, counts, n - 1) {
            Err(e) => Err(e),
            Ok(front) => match lights[n - 1] {
                Value::Table(light) => match light_of(
                    light@,
                    names,
                    counts,
                    light_count(front, front.len() as int),
                ) {
                    Ok(entry) => Ok(front.push(entry)),
                    Err(e) => Err(e),
                },
                _ => Err(SceneError::Entry(Key::Light)),
            },
        }
    }
}

/// What the table `conf` says of the lights.
pub open spec fn scene_lights(
    conf: Seq<(String, Value)>,
    names: Seq<String>,
    counts: Seq<usize>,
) -> Result<Seq<LightValue>, SceneError> {
    match list_at(conf, Key::Light) {
        Err(e) => Err(e),
        Ok(lights) => lights_of(lights, names, counts, lights.len() as int),
    }
}

/// A fault among the first lights is the fault of all.
pub proof fn lemma_lights_fault(
    lights: Seq<Value>,
    names: Seq<String>,
    counts: Seq<usize>,
    some: int,
    all: int,
)
    requires
        0 <= some <= all,
        lights_of(lights, names, counts, some) is Err,
    ensures
        lights_of(lights, names, counts, all) == lights_of(lights, names, counts, some),
    decreases all - some,
{
    if some < all {
        lemma_lights_fault(lights, names, counts, some, all - 1);
    }
}

/// Reads one light. `first` is the number of lights before it, or, where
/// they are more than 64 bits can count, the greatest number that 64 bits
/// can say.
fn parse_toml_light<'a>(
    light: &'a [(String, Value)],
    names: &[String],
    counts: &[usize],
    first: u64,
    Ghost(before): Ghost<nat>,
) -> (entry: Result<LightEntry<'a>, SceneError>)
    requires
        first == before || (first == u64::MAX && before >= u64::MAX),
    ensures
        match entry {
            Ok(l) => light_of(light@, names@, counts@, before) == Ok::<LightValue, SceneError>(l@),
            Err(e) => light_of(light@, names@, counts@, before) == Err::<LightValue, SceneError>(
                e,
            ),
        },
{
    let kind = match text_field(light, Key::Type) {
        Ok(k) => k,
        Err(e) => {
            return Err(e);
        },
    };
    let color = match vec3_field(light, Key::Color) {
        Ok(c) => c,
        Err(e) => {
            return Err(e);
        },
    };
    if same_text(kind.as_str(), "point") {
        let position = match vec3_field(light, Key::Position) {
            Ok(p) => p,
            Err(e) => {
                return Err(e);
            },
        };
        Ok(LightEntry::Point { color, position })
    } else if same_text(kind.as_str(), "area") {
        let transform = match text_field(light, Key::Transform) {
            Ok(t) => t,
            Err(e) => {
                return Err(e);
            },
        };
        let mesh = match text_field(light, Key::Mesh) {
            Ok(m) => m,
            Err(e) => {
                return Err(e);
            },
        };
        let mesh_i = match position_of(names, mesh.as_str()) {
            Some(i) => i,
            None => {
                return Err(SceneError::UnknownMesh);
            },
        };
        if mesh_i >= counts.len() {
            return Err(SceneError::UnknownMesh);
        }
        if counts[mesh_i] % 3 != 0 {
            return Err(SceneError::FaceList);
        }
        if first > u32::MAX as u64 {
            return Err(SceneError::TooManyLights);
        }
        Ok(
            LightEntry::Area {
                color,
                transform,
                mesh_i,
                first_light: first as u32,
                triangles: counts[mesh_i] / 3,
            },
        )
    } else if same_text(kind.as_str(), "directional") {
        let position = match vec3_field(light, Key::Position) {
            Ok(p) => p,
            Err(e) => {
                return Err(e);
            },
        };
        let direction = match vec3_field(light, Key::Direction) {
            Ok(d) => d,
            Err(e) => {
                return Err(e);
            },
        };
        let radius = match number_field(light, Key::Radius) {
            Ok(r) => r,
            Err(e) => {
                return Err(e);
            },
        };
        Ok(LightEntry::Directional { color, position, direction, radius })
    } else {
        Err(SceneError::UnknownLightType)
    }
}

/// What the scene file says of the lights. `names` are the names of the
/// loaded meshes and `counts` the number of indices of each.
pub fn parse_toml_lights<'a>(
    conf: &'a [(String, Value)],
    names: &[String],
    counts: &[usize],
) -> (entries: Result<Vec<LightEntry<'a>>, SceneError>)
    ensures
        match entries {
            Ok(l) => scene_lights(conf@, names@, counts@) == Ok::<Seq<LightValue>, SceneError>(
                l@.map_values(|l: LightEntry<'a>| l@),
            ),
            Err(e) => scene_lights(conf@, names@, counts@) == Err::<Seq<LightValue>, SceneError>(
                e,
            ),
        },
{
    let lights = match list_field(conf, Key::Light) {
        Ok(l) => l,
        Err(e) => {
            return Err(e);
        },
    };
    let mut entries: Vec<LightEntry<'a>> = Vec::new();
    let mut count: u64 = 0;
    let mut i: usize = 0;
    assert(entries@.map_values(|l: LightEntry<'a>| l@) =~= Seq::<LightValue>::empty());
    while i < lights.len()
        invariant
            i <= lights@.len(),
            list_at(conf@, Key::Light) == Ok::<Seq<Value>, SceneError>(lights@),
            lights_of(lights@, names@, counts@, i as int) == Ok::<Seq<LightValue>, SceneError>(
                entries@.map_values(|l: LightEntry<'a>| l@),
            ),
            ({
                let total = light_count(
                    entries@.map_values(|l: LightEntry<'a>| l@),
                    entries@.len() as int,
                );
                count == total || (count == u64::MAX && total >= u64::MAX)
            }),
        decreases lights@.len() - i,
    {
        let ghost front = entries@.map_values(|l: LightEntry<'a>| l@);
        let ghost before = light_count(front, front.len() as int);
        let entry = match &lights[i] {
            Value::Table(light) => match parse_toml_light(
                light.as_slice(),
                names,
                counts,
                count,
                Ghost(before),
            ) {
                Ok(entry) => entry,
                Err(e) => {
                    proof {
                        lemma_lights_fault(lights@, names@, counts@, i + 1, lights@.len() as int);
                    }
                    return Err(e);
                },
            },
            _ => {
                proof {
                    lemma_lights_fault(lights@, names@, counts@, i + 1, lights@.len() as int);
                }
                return Err(SceneError::Entry(Key::Light));
            },
        };
        let more: u64 = match entry {
            LightEntry::Area { triangles, .. } => triangles as u64,
            _ => 1,
        };
        let ghost value = entry@;
        entries.push(entry);
        proof {
            let now = entries@.map_values(|l: LightEntry<'a>| l@);
            assert(now =~= front.push(value));
            assert(now.drop_last() =~= front);
            lemma_light_count_prefix(now, front);
        }
        count = count.saturating_add(more);
        i += 1;
    }
    Ok(entries)
}

/// The count of a list is the count of its front and of its last entry.
pub proof fn lemma_light_count_prefix(now: Seq<LightValue>, front: Seq<LightValue>)
    requires
        now.len() == front.len() + 1,
        now.drop_last() == front,
    ensures
        light_count(now, now.len() as int) == light_count(front, front.len() as int)
            + now.last().lights(),
{
    lemma_light_count_same(now, front, front.len() as int);
}

/// Lists that agree in their first entries count the same for them.
pub proof fn lemma_light_count_same(a: Seq<LightValue>, b: Seq<LightValue>, n: int)
    requires
        0 <= n <= a.len(),
        n <= b.len(),
        forall|i: int| 0 <= i < n ==> a[i] == b[i],
    ensures
        light_count(a, n) == light_count(b, n),
    decreases n,
{
    if n > 0 {
        lemma_light_count_same(a, b, n - 1);
    }
}

} // verus!
