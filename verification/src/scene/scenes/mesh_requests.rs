//! Which mesh files a scene asks for: the meshes of its objects, then those
//! of its area lights, each once, in the order of their first mention.

use crate::scene::scenes::description::{list_at, list_field, text_at, text_field, Key, SceneError};
use crate::scene::type_lexer::same_text;
use crate::scene::value::Value;
use vstd::prelude::*;

verus! {

/// Whether a value of the list of lights describes an area light. A value
/// that is no table, or whose type is missing or no text, describes none.
pub open spec fn is_area_light(light: Value) -> bool {
    match light {
        Value::Table(table) => text_at(table@, Key::Type) == Ok::<Seq<char>, SceneError>("area"@),
        _ => false,
    }
}

/// The names in `start`, then the meshes that the first `n` of `values`
/// name and that were not named before. With `only_area` set, the values
/// that describe no area light are passed over.
pub open spec fn names_after(
    values: Seq<Value>,
    only_area: bool,
    start: Seq<Seq<char>>,
    n: int,
) -> Result<Seq<Seq<char>>, SceneError>
    decreases n,
{
    if n <= 0 {
        Ok(start)
    } else {
        match names_after(values, only_area, start, n - 1) {
            Err(e) => Err(e),
            Ok(front) => if only_area && !is_area_light(values[n - 1]) {
                Ok(front)
            } else {
                match values[n - 1] {
                    Value::Table(table) => match text_at(table@, Key::Mesh) {
                        Err(e) => Err(e),
                        Ok(name) => if front.contains(name) {
                            Ok(front)
                        } else {
                            Ok(front.push(name))
                        },
                    },
                    _ => Err(SceneError::Entry(Key::Object)),
                }
            },
        }
    }
}

/// The mesh files that the scene `conf` asks for.
pub open spec fn requested(conf: Seq<(String, Value)>) -> Result<Seq<Seq<char>>, SceneError> {
    match list_at(conf, Key::Object) {
        Err(e) => Err(e),
        Ok(objects) => match list_at(conf, Key::Light) {
            Err(e) => Err(e),
            Ok(lights) => match names_after(objects, false, Seq::empty(), objects.len() as int) {
                Err(e) => Err(e),
                Ok(front) => names_after(lights, true, front, lights.len() as int),
            },
        },
    }
}

/// Whether no name stands twice in `names`.
pub open spec fn distinct(names: Seq<Seq<char>>) -> bool {
    forall|i: int, j: int| 0 <= i < j < names.len() ==> names[i] != names[j]
}

/// A fault among the first values is the fault of all.
pub proof fn lemma_names_fault(
    values: Seq<Value>,
    only_area: bool,
    start: Seq<Seq<char>>,
    some: int,
    all: int,
)
    requires
        0 <= some <= all,
        names_after(values, only_area, start, some) is Err,
    ensures
        names_after(values, only_area, start, all) == names_after(values, only_area, start, some),
    decreases all - some,
{
    if some < all {
        lemma_names_fault(values, only_area, start, some, all - 1);
    }
}

/// No mesh is asked for twice: where the names at the start are distinct,
/// so are the names at the end.
pub proof fn lemma_names_distinct(
    values: Seq<Value>,
    only_area: bool,
    start: Seq<Seq<char>>,
    n: int,
)
    requires
        distinct(start),
        names_after(values, only_area, start, n) is Ok,
    ensures
        distinct(names_after(values, only_area, start, n)->Ok_0),
    decreases n,
{
    if n > 0 {
        lemma_names_distinct(values, only_area, start, n - 1);
    }
}

/// No mesh file is asked for twice.
pub proof fn lemma_requested_distinct(conf: Seq<(String, Value)>)
    requires
        requested(conf) is Ok,
    ensures
        distinct(requested(conf)->Ok_0),
{
    let objects = list_at(conf, Key::Object)->Ok_0;
    let lights = list_at(conf, Key::Light)->Ok_0;
    lemma_names_distinct(objects, false, Seq::empty(), objects.len() as int);
    let front = names_after(objects, false, Seq::empty(), objects.len() as int)->Ok_0;
    lemma_names_distinct(lights, true, front, lights.len() as int);
}

/// Whether `light` describes an area light.
fn describes_area_light(light: &Value) -> (area: bool)
    ensures
        area == is_area_light(*light),
{
    match light {
        Value::Table(table) => match text_field(table.as_slice(), Key::Type) {
            Ok(kind) => same_text(kind.as_str(), "area"),
            Err(_) => false,
        },
        _ => false,
    }
}

/// Whether `names` holds `name`.
fn holds_name(names: &Vec<&String>, name: &str) -> (held: bool)
    ensures
        held == names@.map_values(|s: &String| s@).contains(name@),
{
    let ghost texts = names@.map_values(|s: &String| s@);
    let mut i: usize = 0;
    while i < names.len()
        invariant
            i <= names@.len(),
            texts == names@.map_values(|s: &String| s@),
            forall|j: int| 0 <= j < i ==> texts[j] != name@,
        decreases names@.len() - i,
    {
        if same_text(names[i].as_str(), name) {
            assert(texts[i as int] == name@);
            return true;
        }
        i += 1;
    }
    false
}

/// Adds to `names` the meshes that `values` name and that `names` does not
/// hold yet.
fn add_names<'a>(values: &'a [Value], only_area: bool, names: &mut Vec<&'a String>) -> (done:
    Result<(), SceneError>)
    ensures
        match done {
            Ok(()) => names_after(
                values@,
                only_area,
                old(names)@.map_values(|s: &String| s@),
                values@.len() as int,
            ) == Ok::<Seq<Seq<char>>, SceneError>(final(names)@.map_values(|s: &String| s@)),
            Err(e) => names_after(
                values@,
                only_area,
                old(names)@.map_values(|s: &String| s@),
                values@.len() as int,
            ) == Err::<Seq<Seq<char>>, SceneError>(e),
        },
{
    let ghost start = names@.map_values(|s: &String| s@);
    let mut i: usize = 0;
    while i < values.len()
        invariant
            i <= values@.len(),
            start == old(names)@.map_values(|s: &String| s@),
            names_after(values@, only_area, start, i as int) == Ok::<Seq<Seq<char>>, SceneError>(
                names@.map_values(|s: &String| s@),
            ),
        decreases values@.len() - i,
    {
        if !only_area || describes_area_light(&values[i]) {
            let ghost front = names@.map_values(|s: &String| s@);
            let name = match &values[i] {
                Value::Table(table) => match text_field(table.as_slice(), Key::Mesh) {
                    Ok(name) => name,
                    Err(e) => {
                        proof {
                            lemma_names_fault(
                                values@,
                                only_area,
                                start,
                                i + 1,
                                values@.len() as int,
                            );
                        }
                        return Err(e);
                    },
                },
                _ => {
                    proof {
                        lemma_names_fault(values@, only_area, start, i + 1, values@.len() as int);
                    }
                    return Err(SceneError::Entry(Key::Object));
                },
            };
            if !holds_name(names, name.as_str()) {
                names.push(name);
                assert(names@.map_values(|s: &String| s@) =~= front.push(name@));
            }
        }
        i += 1;
    }
    Ok(())
}

/// The mesh files that the scene `conf` asks for: the meshes of its
/// objects, then those of its area lights, each once, in the order of their
/// first mention.
pub fn mesh_requests<'a>(conf: &'a [(String, Value)]) -> (names: Result<
    Vec<&'a String>,
    SceneError,
>)
    ensures
        match names {
            Ok(n) => requested(conf@) == Ok::<Seq<Seq<char>>, SceneError>(
                n@.map_values(|s: &String| s@),
            ) && distinct(n@.map_values(|s: &String| s@)),
            Err(e) => requested(conf@) == Err::<Seq<Seq<char>>, SceneError>(e),
        },
{
    let objects = match list_field(conf, Key::Object) {
        Ok(o) => o,
        Err(e) => {
            return Err(e);
        },
    };
    let lights = match list_field(conf, Key::Light) {
        Ok(l) => l,
        Err(e) => {
            return Err(e);
        },
    };
    let mut names: Vec<&'a String> = Vec::new();
    assert(names@.map_values(|s: &String| s@) =~= Seq::<Seq<char>>::empty());
    match add_names(objects.as_slice(), false, &mut names) {
        Ok(()) => {},
        Err(e) => {
            return Err(e);
        },
    }
    match add_names(lights.as_slice(), true, &mut names) {
        Ok(()) => {},
        Err(e) => {
            return Err(e);
        },
    }
    proof {
        lemma_requested_distinct(conf@);
    }
    Ok(names)
}

} // verus!
