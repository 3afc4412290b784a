//! Which shaders a scene file names, and what each material declares.
//!
//! The file names its shaders by their files. The hit shaders of a scene
//! are the hit shader of the emitters, where the file names one, and then
//! the hit shader of each material, in the order of the file: an object
//! points at its material by the place of that shader.

use crate::scene::scenes::description::{
    list_at, list_field, table_at, table_field, text_at, text_field, Key, SceneError,
};
use crate::scene::shader_type::{parse_type_spec, parse_type_str, ShaderType};
use crate::scene::type_lexer::trim_start;
use crate::scene::value::{field_of, get_field, Value, Wanted};
use vstd::prelude::*;

verus! {

/// What a scene file says of a material.
#[derive(Debug, PartialEq, Eq)]
pub struct BrdfEntry<'a> {
    /// The name of the material, which is the name of its hit shader.
    pub name: &'a String,
    /// The file of its hit shader.
    pub chit_shader: &'a String,
    /// The types of its parameters.
    pub types: Vec<ShaderType>,
}

/// What a scene file says of a material, as the contracts see it.
pub ghost struct BrdfValue {
    pub name: Seq<char>,
    pub chit_shader: Seq<char>,
    pub types: Seq<ShaderType>,
}

impl<'a> View for BrdfEntry<'a> {
    type V = BrdfValue;

    open spec fn view(&self) -> BrdfValue {
        BrdfValue { name: self.name@, chit_shader: self.chit_shader@, types: self.types@ }
    }
}

/// The shaders that a scene file names.
#[derive(Debug, PartialEq, Eq)]
pub struct ShaderPlan<'a> {
    /// The file of the ray generation shader.
    pub raygen: &'a String,
    /// The file of the miss shader.
    pub miss: &'a String,
    /// The file of the hit shader of the emitters, where there is one.
    pub emitter_hit: Option<&'a String>,
    /// The materials.
    pub brdfs: Vec<BrdfEntry<'a>>,
}

/// The shaders that a scene file names, as the contracts see them.
pub ghost struct ShaderPlanValue {
    pub raygen: Seq<char>,
    pub miss: Seq<char>,
    pub emitter_hit: Option<Seq<char>>,
    pub brdfs: Seq<BrdfValue>,
}

impl<'a> View for ShaderPlan<'a> {
    type V = ShaderPlanValue;

    open spec fn view(&self) -> ShaderPlanValue {
        ShaderPlanValue {
            raygen: self.raygen@,
            miss: self.miss@,
            emitter_hit: match self.emitter_hit {
                Some(file) => Some(file@),
                None => None,
            },
            brdfs: self.brdfs@.map_values(|b: BrdfEntry<'a>| b@),
        }
    }
}

/// The type that a declaration of a parameter gives.
pub open spec fn declared_type(field: Value) -> Result<ShaderType, SceneError> {
    match field {
        Value::Table(table) => match text_at(table@, Key::Type) {
            Err(e) => Err(e),
            Ok(text) => match parse_type_spec(trim_start(text)).result {
                Ok(ty) => Ok(ty),
                Err(e) => Err(SceneError::Type(e)),
            },
        },
        _ => Err(SceneError::Entry(Key::Field)),
    }
}

/// The types that the first `n` declarations of `fields` give.
pub open spec fn declared_types(fields: Seq<Value>, n: int) -> Result<Seq<ShaderType>, SceneError>
    decreases n,
{
    if n <= 0 {
        Ok(Seq::empty())
    } else {
        match declared_types(fields, n - 1) {
            Err(e) => Err(e),
            Ok(front) => match declared_type(fields[n - 1]) {
                Ok(ty) => Ok(front.push(ty)),
                Err(e) => Err(e),
            },
        }
    }
}

/// What the table `brdf` says of a material.
pub open spec fn brdf_of(brdf: Seq<(String, Value)>) -> Result<BrdfValue, SceneError> {
    match text_at(brdf, Key::Name) {
        Err(e) => Err(e),
        Ok(name) => match text_at(brdf, Key::ChitShader) {
            Err(e) => Err(e),
            Ok(chit_shader) => match list_at(brdf, Key::Field) {
                Err(e) => Err(e),
                Ok(fields) => match declared_types(fields, fields.len() as int) {
                    Err(e) => Err(e),
                    Ok(types) => Ok(BrdfValue { name, chit_shader, types }),
                },
            },
        },
    }
}

/// What the first `n` values of `brdfs` say of the materials.
pub open spec fn brdfs_of(brdfs: Seq<Value>, n: int) -> Result<Seq<BrdfValue>, SceneError>
    decreases n,
{
    if n <= 0 {
        Ok(Seq::empty())
    } else {
        match brdfs_of(brdfs, n - 1) {
            Err(e) => Err(e),
            Ok(front) => match brdfs[n - 1] {
                Value::Table(brdf) => match brdf_of(brdf@) {
                    Ok(entry) => Ok(front.push(entry)),
                    Err(e) => Err(e),
                },
                _ => Err(SceneError::Entry(Key::Brdf)),
            },
        }
    }
}

/// The file of the hit shader of the emitters, where the table of the
/// global shaders names one.
pub open spec fn emitter_hit_of(global: Seq<(String, Value)>) -> Result<
    Option<Seq<char>>,
    SceneError,
> {
    match field_of(global, Key::EmitterHit.text()) {
        None => Ok(None),
        Some(Value::String(file)) => Ok(Some(file@)),
        Some(_) => Err(SceneError::Field(Key::EmitterHit, Wanted::String)),
    }
}

/// The shaders that the scene file `conf` names: the global shaders first,
/// then the materials.
pub open spec fn shader_plan_of(conf: Seq<(String, Value)>) -> Result<ShaderPlanValue, SceneError> {
    match table_at(conf, Key::GlobalShaders) {
        Err(e) => Err(e),
        Ok(global) => match text_at(global, Key::Raygen) {
            Err(e) => Err(e),
            Ok(raygen) => match text_at(global, Key::Miss) {
                Err(e) => Err(e),
                Ok(miss) => match emitter_hit_of(global) {
                    Err(e) => Err(e),
                    Ok(emitter_hit) => match list_at(conf, Key::Brdf) {
                        Err(e) => Err(e),
                        Ok(brdfs) => match brdfs_of(brdfs, brdfs.len() as int) {
                            Err(e) => Err(e),
                            Ok(brdfs) => Ok(ShaderPlanValue { raygen, miss, emitter_hit, brdfs }),
                        },
                    },
                },
            },
        },
    }
}

/// The names of the hit shaders of a scene, in their order: that of the
/// emitters, where the file names one, and then those of the materials.
pub open spec fn hit_shader_names(plan: ShaderPlanValue) -> Seq<Seq<char>> {
    let names = plan.brdfs.map_values(|b: BrdfValue| b.name);
    if plan.emitter_hit is Some {
        seq![Key::EmitterHit.text()] + names
    } else {
        names
    }
}

/// A fault among the first declarations is the fault of all.
pub proof fn lemma_types_fault(fields: Seq<Value>, some: int, all: int)
    requires
        0 <= some <= all,
        declared_types(fields, some) is Err,
    ensures
        declared_types(fields, all) == declared_types(fields, some),
    decreases all - some,
{
    if some < all {
        lemma_types_fault(fields, some, all - 1);
    }
}

/// A fault among the first materials is the fault of all.
pub proof fn lemma_brdfs_fault(brdfs: Seq<Value>, some: int, all: int)
    requires
        0 <= some <= all,
        brdfs_of(brdfs, some) is Err,
    ensures
        brdfs_of(brdfs, all) == brdfs_of(brdfs, some),
    decreases all - some,
{
    if some < all {
        lemma_brdfs_fault(brdfs, some, all - 1);
    }
}

/// The type that a declaration of a parameter gives.
fn parse_declared_type(field: &Value) -> (ty: Result<ShaderType, SceneError>)
    ensures
        ty == declared_type(*field),
{
    match field {
        Value::Table(table) => match text_field(table.as_slice(), Key::Type) {
            Err(e) => Err(e),
            Ok(text) => match parse_type_str(text.as_str()) {
                Ok(ty) => Ok(ty),
                Err(e) => Err(SceneError::Type(e)),
            },
        },
        _ => Err(SceneError::Entry(Key::Field)),
    }
}

/// The types that the declarations `fields` give.
fn parse_declared_types(fields: &[Value]) -> (types: Result<Vec<ShaderType>, SceneError>)
    ensures
        match types {
            Ok(t) => declared_types(fields@, fields@.len() as int) == Ok::<
                Seq<ShaderType>,
                SceneError,
            >(t@),
            Err(e) => declared_types(fields@, fields@.len() as int) == Err::<
                Seq<ShaderType>,
                SceneError,
            >(e),
        },
{
    let mut types: Vec<ShaderType> = Vec::new();
    let mut i: usize = 0;
    while i < fields.len()
        invariant
            i <= fields@.len(),
            declared_types(fields@, i as int) == Ok::<Seq<ShaderType>, SceneError>(types@),
        decreases fields@.len() - i,
    {
        match parse_declared_type(&fields[i]) {
            Ok(ty) => {
                types.push(ty);
            },
            Err(e) => {
                proof {
                    lemma_types_fault(fields@, i + 1, fields@.len() as int);
                }
                return Err(e);
            },
        }
        i += 1;
    }
    Ok(types)
}

/// Reads one material.
fn parse_toml_brdf<'a>(brdf: &'a [(String, Value)]) -> (entry: Result<BrdfEntry<'a>, SceneError>)
    ensures
        match entry {
            Ok(b) => brdf_of(brdf@) == Ok::<BrdfValue, SceneError>(b@),
            Err(e) => brdf_of(brdf@) == Err::<BrdfValue, SceneError>(e),
        },
{
    let name = match text_field(brdf, Key::Name) {
        Ok(n) => n,
        Err(e) => {
            return Err(e);
        },
    };
    let chit_shader = match text_field(brdf, Key::ChitShader) {
        Ok(c) => c,
        Err(e) => {
            return Err(e);
        },
    };
    let fields = match list_field(brdf, Key::Field) {
        Ok(f) => f,
        Err(e) => {
            return Err(e);
        },
    };
    match parse_declared_types(fields.as_slice()) {
        Ok(types) => Ok(BrdfEntry { name, chit_shader, types }),
        Err(e) => Err(e),
    }
}

/// Reads the materials.
fn parse_toml_brdfs<'a>(values: &'a [Value]) -> (entries: Result<Vec<BrdfEntry<'a>>, SceneError>)
    ensures
        match entries {
            Ok(b) => brdfs_of(values@, values@.len() as int) == Ok::<Seq<BrdfValue>, SceneError>(
                b@.map_values(|b: BrdfEntry<'a>| b@),
            ),
            Err(e) => brdfs_of(values@, values@.len() as int) == Err::<
                Seq<BrdfValue>,
                SceneError,
            >(e),
        },
{
    let mut brdfs: Vec<BrdfEntry<'a>> = Vec::new();
    let mut i: usize = 0;
    assert(brdfs@.map_values(|b: BrdfEntry<'a>| b@) =~= Seq::<BrdfValue>::empty());
    while i < values.len()
        invariant
            i <= values@.len(),
            brdfs_of(values@, i as int) == Ok::<Seq<BrdfValue>, SceneError>(
                brdfs@.map_values(|b: BrdfEntry<'a>| b@),
            ),
        decreases values@.len() - i,
    {
        let ghost front = brdfs@.map_values(|b: BrdfEntry<'a>| b@);
        let entry = match &values[i] {
            Value::Table(brdf) => match parse_toml_brdf(brdf.as_slice()) {
                Ok(entry) => entry,
                Err(e) => {
                    proof {
                        lemma_brdfs_fault(values@, i + 1, values@.len() as int);
                    }
                    return Err(e);
                },
            },
            _ => {
                proof {
                    lemma_brdfs_fault(values@, i + 1, values@.len() as int);
                }
                return Err(SceneError::Entry(Key::Brdf));
            },
        };
        let ghost value = entry@;
        brdfs.push(entry);
        assert(brdfs@.map_values(|b: BrdfEntry<'a>| b@) =~= front.push(value));
        i += 1;
    }
    Ok(brdfs)
}

/// The shaders that the scene file `conf` names.
pub fn parse_toml_shaders<'a>(conf: &'a [(String, Value)]) -> (plan: Result<
    ShaderPlan<'a>,
    SceneError,
>)
    ensures
        match plan {
            Ok(p) => shader_plan_of(conf@) == Ok::<ShaderPlanValue, SceneError>(p@),
            Err(e) => shader_plan_of(conf@) == Err::<ShaderPlanValue, SceneError>(e),
        },
{
    let global = match table_field(conf, Key::GlobalShaders) {
        Ok(g) => g,
        Err(e) => {
            return Err(e);
        },
    };
    let raygen = match text_field(global.as_slice(), Key::Raygen) {
        Ok(r) => r,
        Err(e) => {
            return Err(e);
        },
    };
    let miss = match text_field(global.as_slice(), Key::Miss) {
        Ok(m) => m,
        Err(e) => {
            return Err(e);
        },
    };
    let emitter_hit = match get_field(global.as_slice(), Key::EmitterHit.as_str()) {
        None => None,
        Some(Value::String(file)) => Some(file),
        Some(_) => {
            return Err(SceneError::Field(Key::EmitterHit, Wanted::String));
        },
    };
    let values = match list_field(conf, Key::Brdf) {
        Ok(b) => b,
        Err(e) => {
            return Err(e);
        },
    };
    match parse_toml_brdfs(values.as_slice()) {
        Ok(brdfs) => Ok(ShaderPlan { raygen, miss, emitter_hit, brdfs }),
        Err(e) => Err(e),
    }
}

impl<'a> ShaderPlan<'a> {
    /// The names of the hit shaders of the scene, in their order.
    pub fn hit_shader_names(&self) -> (names: Vec<String>)
        ensures
            names@.map_values(|s: String| s@) == hit_shader_names(self@),
    {
        let mut names: Vec<String> = Vec::new();
        if self.emitter_hit.is_some() {
            names.push(Key::EmitterHit.as_str().to_owned());
        }
        let ghost start = names@.map_values(|s: String| s@);
        let ghost all = self@.brdfs.map_values(|b: BrdfValue| b.name);
        assert(start =~= if self@.emitter_hit is Some {
            seq![Key::EmitterHit.text()]
        } else {
            Seq::empty()
        });
        let mut i: usize = 0;
        while i < self.brdfs.len()
            invariant
                i <= self.brdfs@.len(),
                all == self@.brdfs.map_values(|b: BrdfValue| b.name),
                names@.map_values(|s: String| s@) =~= start + all.take(i as int),
            decreases self.brdfs@.len() - i,
        {
            let ghost front = names@.map_values(|s: String| s@);
            let name = self.brdfs[i].name.as_str().to_owned();
            assert(name@ == all[i as int]);
            names.push(name);
            assert(names@.map_values(|s: String| s@) =~= front.push(all[i as int]));
            assert(all.take(i + 1) =~= all.take(i as int).push(all[i as int]));
            i += 1;
        }
        assert(all.take(i as int) =~= all);
        assert(Seq::<Seq<char>>::empty() + all =~= all);
        names
    }
}

} // verus!
