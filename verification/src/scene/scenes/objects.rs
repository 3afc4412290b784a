//! What a scene file says of the objects of a scene.
//!
//! The meshes are loaded and the materials read before the objects are:
//! an object names its mesh and its material, and gives the material's
//! parameters, each of the type that the material declares.
//!
//! Meshes and materials are looked up by name in the lists that they were
//! read into, so that what is found is stated by its place: a mesh at the
//! first place of its name, and no mesh is loaded twice; a material at the
//! last place of its name, so that a later declaration replaces an earlier
//! one.

use crate::render::words::{is_native_image, native_bytes};
use crate::scene::param_field::{field_words, parse_field_words, FieldError};
use crate::scene::scenes::description::{
    find_name, list_at, list_field, position_of, table_at, table_field, text_at, text_field, Key,
    SceneError,
};
use crate::scene::scenes::mesh::Object;
use crate::scene::scenes::shaders::BrdfEntry;
use crate::scene::shader_type::ShaderType;
use crate::scene::type_lexer::same_text;
use crate::scene::value::Value;
use vstd::prelude::*;

verus! {

/// The number of indices that the first `mesh_i` meshes hold.
pub open spec fn start_offset(counts: Seq<usize>, mesh_i: int) -> nat
    decreases mesh_i,
{
    if mesh_i <= 0 {
        0
    } else {
        start_offset(counts, mesh_i - 1) + counts[mesh_i - 1] as nat
    }
}

/// Index of the last of the first `n` of `brdfs` that has the name `name`:
/// a later declaration of a material replaces an earlier one.
pub open spec fn find_types(brdfs: Seq<BrdfEntry>, name: Seq<char>, n: int) -> Option<int>
    decreases n,
{
    if n <= 0 {
        None
    } else if brdfs[n - 1].name@ == name {
        Some(n - 1)
    } else {
        find_types(brdfs, name, n - 1)
    }
}

/// The words of the first `n` of `fields`, each of its type in `types`.
pub open spec fn fields_words(fields: Seq<Value>, types: Seq<ShaderType>, n: int) -> Result<
    Seq<u32>,
    FieldError,
>
    decreases n,
{
    if n <= 0 {
        Ok(Seq::empty())
    } else {
        match fields_words(fields, types, n - 1) {
            Err(e) => Err(e),
            Ok(front) => match field_words(fields[n - 1], types[n - 1]) {
                Ok(words) => Ok(front + words),
                Err(e) => Err(e),
            },
        }
    }
}

/// A fault among the first fields is the fault of all.
pub proof fn lemma_fields_fault(fields: Seq<Value>, types: Seq<ShaderType>, some: int, all: int)
    requires
        0 <= some <= all,
        fields_words(fields, types, some) is Err,
    ensures
        fields_words(fields, types, all) == fields_words(fields, types, some),
    decreases all - some,
{
    if some < all {
        lemma_fields_fault(fields, types, some, all - 1);
    }
}

/// What a scene file says of an object.
#[derive(Debug, PartialEq, Eq)]
pub struct ObjectEntry<'a> {
    /// The script of the transform.
    pub transform: &'a String,
    /// Index of the mesh among the loaded meshes.
    pub mesh_i: usize,
    /// Index of the material among the hit shaders.
    pub brdf_i: usize,
    /// The parameters of the material, as words.
    pub brdf_words: Vec<u32>,
    /// Index of the first vertex of the mesh among the vertices that the
    /// indices of all meshes name.
    pub vertex_index: u32,
}

/// What a scene file says of an object, as the contracts see it.
pub ghost struct ObjectValue {
    pub transform: Seq<char>,
    pub mesh_i: usize,
    pub brdf_i: usize,
    pub brdf_words: Seq<u32>,
    pub vertex_index: u32,
}

impl<'a> View for ObjectEntry<'a> {
    type V = ObjectValue;

    open spec fn view(&self) -> ObjectValue {
        ObjectValue {
            transform: self.transform@,
            mesh_i: self.mesh_i,
            brdf_i: self.brdf_i,
            brdf_words: self.brdf_words@,
            vertex_index: self.vertex_index,
        }
    }
}

impl<'a> ObjectEntry<'a> {
    /// The object of the scene, once its transform is worked out: the
    /// parameters of its material are its words in the byte order of the
    /// host.
    pub fn object(&self, transform: [u32; 16]) -> (object: Object)
        ensures
            object.transform == transform,
            object.mesh_i == self.mesh_i,
            object.brdf_i == self.brdf_i,
            is_native_image(object.brdf_params@, self.brdf_words@),
            object.vertex_index == self.vertex_index,
    {
        Object {
            transform,
            mesh_i: self.mesh_i,
            brdf_i: self.brdf_i,
            brdf_params: native_bytes(self.brdf_words.as_slice()),
            vertex_index: self.vertex_index,
        }
    }
}

/// What the objects are read against: the names of the loaded meshes, the
/// number of indices of each, the names of the hit shaders, and the
/// materials.
pub struct SceneContext<'a> {
    pub mesh_names: &'a [String],
    pub index_counts: &'a [usize],
    pub hit_shaders: &'a [String],
    pub brdfs: &'a [BrdfEntry<'a>],
}

/// What the table `object` says of an object. The checks are made in this
/// order: the mesh and the transform are named, the material is named and
/// declared and gets as many parameters as it declares, each of its type;
/// the material has a hit shader; the mesh was loaded.
pub open spec fn object_of(object: Seq<(String, Value)>, context: SceneContext) -> Result<
    ObjectValue,
    SceneError,
> {
    let names = context.mesh_names@;
    let counts = context.index_counts@;
    let brdfs = context.brdfs@;
    match text_at(object, Key::Mesh) {
        Err(e) => Err(e),
        Ok(mesh) => match text_at(object, Key::Transform) {
            Err(e) => Err(e),
            Ok(transform) => match table_at(object, Key::Brdf) {
                Err(e) => Err(e),
                Ok(brdf) => match text_at(brdf, Key::Name) {
                    Err(e) => Err(e),
                    Ok(name) => match list_at(brdf, Key::Fields) {
                        Err(e) => Err(e),
                        Ok(fields) => match find_types(brdfs, name, brdfs.len() as int) {
                            None => Err(SceneError::UnknownBrdf),
                            Some(t) => {
                                let types = brdfs[t].types@;
                                if types.len() != fields.len() {
                                    Err(SceneError::FieldCount)
                                } else {
                                    match fields_words(fields, types, fields.len() as int) {
                                        Err(e) => Err(SceneError::Param(e)),
                                        Ok(words) => match find_name(
                                            context.hit_shaders@,
                                            name,
                                            0,
                                        ) {
                                            None => Err(SceneError::UnknownBrdfShader),
                                            Some(brdf_i) => match find_name(names, mesh, 0) {
                                                None => Err(SceneError::UnknownMesh),
                                                Some(mesh_i) => if mesh_i >= counts.len() {
                                                    Err(SceneError::UnknownMesh)
                                                } else if start_offset(counts, mesh_i) > u32::MAX {
                                                    Err(SceneError::TooManyIndices)
                                                } else {
                                                    Ok(
                                                        ObjectValue {
                                                            transform,
                                                            mesh_i: mesh_i as usize,
                                                            brdf_i: brdf_i as usize,
                                                            brdf_words: words,
                                                            vertex_index: start_offset(
                                                                counts,
                                                                mesh_i,
                                                            ) as u32,
                                                        },
                                                    )
                                                },
                                            },
                                        },
                                    }
                                }
                            },
                        },
                    },
                },
            },
        },
    }
}

/// What the first `n` values of `objects` say of the objects, or the first
/// fault among them.
pub open spec fn objects_of(objects: Seq<Value>, context: SceneContext, n: int) -> Result<
    Seq<ObjectValue>,
    SceneError,
>
    decreases n,
{
    if n <= 0 {
        Ok(Seq::empty())
    } else {
        match objects_of(objects, context, n - 1) {
            Err(e) => Err(e),
            Ok(front) => match objects[n - 1] {
                Value::Table(object) => match object_of(object@, context) {
                    Ok(entry) => Ok(front.push(entry)),
                    Err(e) => Err(e),
                },
                _ => Err(SceneError::Entry(Key::Object)),
            },
        }
    }
}

/// What the table `conf` says of the objects.
pub open spec fn scene_objects(conf: Seq<(String, Value)>, context: SceneContext) -> Result<
    Seq<ObjectValue>,
    SceneError,
> {
    match list_at(conf, Key::Object) {
        Err(e) => Err(e),
        Ok(objects) => objects_of(objects, context, objects.len() as int),
    }
}

/// A fault among the first objects is the fault of all.
pub proof fn lemma_objects_fault(objects: Seq<Value>, context: SceneContext, some: int, all: int)
    requires
        0 <= some <= all,
        objects_of(objects, context, some) is Err,
    ensures
        objects_of(objects, context, all) == objects_of(objects, context, some),
    decreases all - some,
{
    if some < all {
        lemma_objects_fault(objects, context, some, all - 1);
    }
}

/// Index of the last declaration of the material `name`.
fn types_of(brdfs: &[BrdfEntry], name: &str) -> (index: Option<usize>)
    ensures
        match index {
            Some(i) => find_types(brdfs@, name@, brdfs@.len() as int) == Some(i as int) && i
                < brdfs@.len(),
            None => find_types(brdfs@, name@, brdfs@.len() as int) is None,
        },
{
    let mut i: usize = brdfs.len();
    while i > 0
        invariant
            i <= brdfs@.len(),
            find_types(brdfs@, name@, brdfs@.len() as int) == find_types(brdfs@, name@, i as int),
        decreases i,
    {
        if same_text(brdfs[i - 1].name.as_str(), name) {
            return Some(i - 1);
        }
        i -= 1;
    }
    None
}

/// The words of `fields`, each of its type in `types`.
fn parse_fields(fields: &[Value], types: &[ShaderType]) -> (words: Result<Vec<u32>, FieldError>)
    requires
        fields@.len() == types@.len(),
    ensures
        match words {
            Ok(w) => fields_words(fields@, types@, fields@.len() as int) == Ok::<
                Seq<u32>,
                FieldError,
            >(w@),
            Err(e) => fields_words(fields@, types@, fields@.len() as int) == Err::<
                Seq<u32>,
                FieldError,
            >(e),
        },
{
    let mut words: Vec<u32> = Vec::new();
    let mut i: usize = 0;
    while i < fields.len()
        invariant
            i <= fields@.len(),
            fields@.len() == types@.len(),
            fields_words(fields@, types@, i as int) == Ok::<Seq<u32>, FieldError>(words@),
        decreases fields@.len() - i,
    {
        match parse_field_words(&fields[i], &types[i]) {
            Ok(more) => {
                let ghost front = words@;
                words.extend_from_slice(more.as_slice());
                assert(words@ =~= front + more@);
            },
            Err(e) => {
                proof {
                    lemma_fields_fault(fields@, types@, i + 1, fields@.len() as int);
                }
                return Err(e);
            },
        }
        i += 1;
    }
    Ok(words)
}

/// The number of indices that the first `mesh_i` meshes hold, or, where
/// they are more than 64 bits can count, the greatest number that 64 bits
/// can say.
fn sum_counts(counts: &[usize], mesh_i: usize) -> (sum: u64)
    requires
        mesh_i <= counts@.len(),
    ensures
        sum == start_offset(counts@, mesh_i as int) || (sum == u64::MAX && start_offset(
            counts@,
            mesh_i as int,
        ) >= u64::MAX),
{
    let mut sum: u64 = 0;
    let mut i: usize = 0;
    while i < mesh_i
        invariant
            i <= mesh_i <= counts@.len(),
            sum == start_offset(counts@, i as int) || (sum == u64::MAX && start_offset(
                counts@,
                i as int,
            ) >= u64::MAX),
        decreases mesh_i - i,
    {
        sum = sum.saturating_add(counts[i] as u64);
        i += 1;
    }
    sum
}

/// Reads one object.
fn parse_toml_object<'a>(object: &'a [(String, Value)], context: &SceneContext) -> (entry: Result<
    ObjectEntry<'a>,
    SceneError,
>)
    ensures
        match entry {
            Ok(o) => object_of(object@, *context) == Ok::<ObjectValue, SceneError>(o@),
            Err(e) => object_of(object@, *context) == Err::<ObjectValue, SceneError>(e),
        },
{
    let mesh = match text_field(object, Key::Mesh) {
        Ok(m) => m,
        Err(e) => {
            return Err(e);
        },
    };
    let transform = match text_field(object, Key::Transform) {
        Ok(t) => t,
        Err(e) => {
            return Err(e);
        },
    };
    let brdf = match table_field(object, Key::Brdf) {
        Ok(b) => b,
        Err(e) => {
            return Err(e);
        },
    };
    let name = match text_field(brdf.as_slice(), Key::Name) {
        Ok(n) => n,
        Err(e) => {
            return Err(e);
        },
    };
    let fields = match list_field(brdf.as_slice(), Key::Fields) {
        Ok(f) => f,
        Err(e) => {
            return Err(e);
        },
    };
    let types = match types_of(context.brdfs, name.as_str()) {
        Some(t) => &context.brdfs[t].types,
        None => {
            return Err(SceneError::UnknownBrdf);
        },
    };
    if types.len() != fields.len() {
        return Err(SceneError::FieldCount);
    }
    let brdf_words = match parse_fields(fields.as_slice(), types.as_slice()) {
        Ok(w) => w,
        Err(e) => {
            return Err(SceneError::Param(e));
        },
    };
    let brdf_i = match position_of(context.hit_shaders, name.as_str()) {
        Some(i) => i,
        None => {
            return Err(SceneError::UnknownBrdfShader);
        },
    };
    let mesh_i = match position_of(context.mesh_names, mesh.as_str()) {
        Some(i) => i,
        None => {
            return Err(SceneError::UnknownMesh);
        },
    };
    if mesh_i >= context.index_counts.len() {
        return Err(SceneError::UnknownMesh);
    }
    let offset = sum_counts(context.index_counts, mesh_i);
    if offset > u32::MAX as u64 {
        return Err(SceneError::TooManyIndices);
    }
    Ok(ObjectEntry { transform, mesh_i, brdf_i, brdf_words, vertex_index: offset as u32 })
}

/// What the scene file says of the objects.
pub fn parse_toml_objects<'a>(conf: &'a [(String, Value)], context: &SceneContext) -> (entries:
    Result<Vec<ObjectEntry<'a>>, SceneError>)
    ensures
        match entries {
            Ok(o) => scene_objects(conf@, *context) == Ok::<Seq<ObjectValue>, SceneError>(
                o@.map_values(|o: ObjectEntry<'a>| o@),
            ),
            Err(e) => scene_objects(conf@, *context) == Err::<Seq<ObjectValue>, SceneError>(e),
        },
{
    let objects = match list_field(conf, Key::Object) {
        Ok(o) => o,
        Err(e) => {
            return Err(e);
        },
    };
    let mut entries: Vec<ObjectEntry<'a>> = Vec::new();
    let mut i: usize = 0;
    assert(entries@.map_values(|o: ObjectEntry<'a>| o@) =~= Seq::<ObjectValue>::empty());
    while i < objects.len()
        invariant
            i <= objects@.len(),
            list_at(conf@, Key::Object) == Ok::<Seq<Value>, SceneError>(objects@),
            objects_of(objects@, *context, i as int) == Ok::<Seq<ObjectValue>, SceneError>(
                entries@.map_values(|o: ObjectEntry<'a>| o@),
            ),
        decreases objects@.len() - i,
    {
        let ghost front = entries@.map_values(|o: ObjectEntry<'a>| o@);
        let entry = match &objects[i] {
            Value::Table(object) => match parse_toml_object(object.as_slice(), context) {
                Ok(entry) => entry,
                Err(e) => {
                    proof {
                        lemma_objects_fault(objects@, *context, i + 1, objects@.len() as int);
                    }
                    return Err(e);
                },
            },
            _ => {
                proof {
                    lemma_objects_fault(objects@, *context, i + 1, objects@.len() as int);
                }
                return Err(SceneError::Entry(Key::Object));
            },
        };
        let ghost value = entry@;
        entries.push(entry);
        assert(entries@.map_values(|o: ObjectEntry<'a>| o@) =~= front.push(value));
        i += 1;
    }
    Ok(entries)
}

} // verus!
