//! The packed light buffer: a count, then one record of sixteen words for
//! each light, in the order of the lights.
//!
//! A record starts with the tag of its kind and the colour. A point light
//! has its position next and nine words of padding; a triangle light has
//! three words of padding next and its nine corner coordinates; a
//! directional light has its position, its direction and its radius next
//! and five words of padding. Padding is zero.

use crate::render::words::{is_native_image, lemma_image_part, native_bytes};
use crate::scene::scenes::mesh::{Corners, Light, Vec3};
use vstd::prelude::*;

verus! {

/// Words in one record.
pub const LIGHT_RECORD_WORDS: usize = 16;

/// Tag of a point light.
pub const POINT_LIGHT_TAG: u32 = 0;

/// Tag of a triangle light.
pub const TRIANGLE_LIGHT_TAG: u32 = 1;

/// Tag of a directional light.
pub const DIRECTIONAL_LIGHT_TAG: u32 = 2;

/// The record of `light`.
pub open spec fn record_words(light: Light) -> Seq<u32> {
    match light {
        Light::Point { color, position } => seq![
            POINT_LIGHT_TAG,
            color.x,
            color.y,
            color.z,
            position.x,
            position.y,
            position.z,
            0,
            0,
            0,
            0,
            0,
            0,
            0,
            0,
            0,
        ],
        Light::Triangle { color, vertices } => seq![
            TRIANGLE_LIGHT_TAG,
            color.x,
            color.y,
            color.z,
            0,
            0,
            0,
            vertices.a.x,
            vertices.a.y,
            vertices.a.z,
            vertices.b.x,
            vertices.b.y,
            vertices.b.z,
            vertices.c.x,
            vertices.c.y,
            vertices.c.z,
        ],
        Light::Directional { color, position, direction, radius } => seq![
            DIRECTIONAL_LIGHT_TAG,
            color.x,
            color.y,
            color.z,
            position.x,
            position.y,
            position.z,
            direction.x,
            direction.y,
            direction.z,
            radius,
            0,
            0,
            0,
            0,
            0,
        ],
    }
}

/// The records of `lights`, one behind the other.
pub open spec fn records(lights: Seq<Light>) -> Seq<u32>
    decreases lights.len(),
{
    if lights.len() == 0 {
        Seq::empty()
    } else {
        records(lights.drop_last()) + record_words(lights.last())
    }
}

/// The words of the light buffer of `lights`: their number, then their
/// records.
pub open spec fn light_words(lights: Seq<Light>) -> Seq<u32> {
    seq![lights.len() as u32] + records(lights)
}

/// The light that the sixteen words `words` are the record of, if they are
/// one: the tag is known and the padding is zero.
pub open spec fn decode_record(words: Seq<u32>) -> Option<Light> {
    let color = Vec3 { x: words[1], y: words[2], z: words[3] };
    if words[0] == POINT_LIGHT_TAG && (forall|i: int| 7 <= i < 16 ==> words[i] == 0) {
        Some(Light::Point { color, position: Vec3 { x: words[4], y: words[5], z: words[6] } })
    } else if words[0] == TRIANGLE_LIGHT_TAG && words[4] == 0 && words[5] == 0 && words[6] == 0 {
        Some(
            Light::Triangle {
                color,
                vertices: Corners {
                    a: Vec3 { x: words[7], y: words[8], z: words[9] },
                    b: Vec3 { x: words[10], y: words[11], z: words[12] },
                    c: Vec3 { x: words[13], y: words[14], z: words[15] },
                },
            },
        )
    } else if words[0] == DIRECTIONAL_LIGHT_TAG && (forall|i: int| 11 <= i < 16 ==> words[i] == 0) {
        Some(
            Light::Directional {
                color,
                position: Vec3 { x: words[4], y: words[5], z: words[6] },
                direction: Vec3 { x: words[7], y: words[8], z: words[9] },
                radius: words[10],
            },
        )
    } else {
        None
    }
}

/// The lights that `words` hold the records of, if `words` is made of
/// records.
pub open spec fn decode_records(words: Seq<u32>) -> Option<Seq<Light>>
    decreases words.len(),
{
    if words.len() == 0 {
        Some(Seq::empty())
    } else if words.len() < 16 {
        None
    } else {
        let split = words.len() - 16;
        match (decode_records(words.take(split)), decode_record(words.skip(split))) {
            (Some(front), Some(light)) => Some(front.push(light)),
            _ => None,
        }
    }
}

/// What a light buffer holds: the count that it opens with and the lights of
/// its records.
pub ghost struct LightTable {
    pub count: u32,
    pub lights: Seq<Light>,
}

/// What the light buffer `words` holds, if it is one.
pub open spec fn decode_words(words: Seq<u32>) -> Option<LightTable> {
    if words.len() == 0 {
        None
    } else {
        match decode_records(words.skip(1)) {
            Some(lights) => Some(LightTable { count: words[0], lights }),
            None => None,
        }
    }
}

/// A record has sixteen words and decodes to the light it was made of.
pub proof fn lemma_record_round_trip(light: Light)
    ensures
        record_words(light).len() == 16,
        decode_record(record_words(light)) == Some(light),
{
}

/// Records decode to the lights they were made of, and there are sixteen
/// words for each light.
pub proof fn lemma_records_round_trip(lights: Seq<Light>)
    ensures
        decode_records(records(lights)) == Some(lights),
        records(lights).len() == 16 * lights.len(),
    decreases lights.len(),
{
    if lights.len() > 0 {
        let front = lights.drop_last();
        let last = lights.last();
        lemma_records_round_trip(front);
        lemma_record_round_trip(last);
        let words = records(lights);
        let split = words.len() - 16;
        assert(words.take(split) =~= records(front));
        assert(words.skip(split) =~= record_words(last));
        assert(front.push(last) =~= lights);
    }
}

/// The record of the light with index `k` stands in the buffer behind the
/// count and the records of the lights before it.
pub proof fn lemma_record_place(lights: Seq<Light>, k: int)
    requires
        0 <= k < lights.len(),
    ensures
        light_words(lights).len() == 1 + 16 * lights.len(),
        light_words(lights).subrange(1 + 16 * k, 17 + 16 * k) == record_words(lights[k]),
    decreases lights.len(),
{
    let front = lights.drop_last();
    lemma_records_round_trip(lights);
    lemma_records_round_trip(front);
    lemma_record_round_trip(lights.last());
    if k == lights.len() - 1 {
        assert(light_words(lights).subrange(1 + 16 * k, 17 + 16 * k) =~= record_words(
            lights.last(),
        ));
    } else {
        lemma_record_place(front, k);
        assert(light_words(lights).subrange(1 + 16 * k, 17 + 16 * k) =~= light_words(
            front,
        ).subrange(1 + 16 * k, 17 + 16 * k));
    }
}

/// Lights that are written into the light buffer are read back from it as
/// they were: kind, colour and geometry, in their order, and with their
/// number in front. The padding of each record is zero, or the buffer would
/// not decode.
pub proof fn lemma_light_buffer_round_trip(lights: Seq<Light>)
    requires
        lights.len() <= u32::MAX,
    ensures
        light_words(lights).len() == 1 + 16 * lights.len(),
        decode_words(light_words(lights)) == Some(
            LightTable { count: lights.len() as u32, lights },
        ),
{
    lemma_records_round_trip(lights);
    assert(light_words(lights).skip(1) =~= records(lights));
}

/// The bytes of a light buffer: four bytes of the number of lights, then
/// sixty-four bytes for each light, which are the record of that light in
/// the byte order of the host.
pub proof fn lemma_light_buffer_bytes(lights: Seq<Light>, bytes: Seq<u8>, k: int)
    requires
        lights.len() <= u32::MAX,
        is_native_image(bytes, light_words(lights)),
        0 <= k < lights.len(),
    ensures
        bytes.len() == 4 + 64 * lights.len(),
        is_native_image(bytes.subrange(0, 4), seq![lights.len() as u32]),
        is_native_image(bytes.subrange(4 + 64 * k, 68 + 64 * k), record_words(lights[k])),
{
    let words = light_words(lights);
    lemma_record_place(lights, k);
    lemma_image_part(bytes, words, 0, 1);
    assert(words.subrange(0, 1) =~= seq![lights.len() as u32]);
    lemma_image_part(bytes, words, 1 + 16 * k, 17 + 16 * k);
}

/// Words that are not whole records do not decode.
pub proof fn lemma_partial_record(words: Seq<u32>)
    requires
        words.len() % 16 != 0,
    ensures
        decode_records(words) is None,
    decreases words.len(),
{
    if words.len() >= 16 {
        lemma_partial_record(words.take(words.len() - 16));
    }
}

/// Where the records in front do not decode, the whole does not.
pub proof fn lemma_bad_prefix(words: Seq<u32>, good: int, all: int)
    requires
        0 <= good <= all,
        16 * all <= words.len(),
        decode_records(words.take(16 * good)) is None,
    ensures
        decode_records(words.take(16 * all)) is None,
    decreases all - good,
{
    if good < all {
        lemma_bad_prefix(words, good, all - 1);
        let whole = words.take(16 * all);
        assert(whole.take(whole.len() - 16) =~= words.take(16 * (all - 1)));
    }
}

/// Decoding one record more: the records in front, then the new one.
pub proof fn lemma_decode_step(words: Seq<u32>, done: int)
    requires
        0 <= done,
        16 * (done + 1) <= words.len(),
    ensures
        decode_records(words.take(16 * (done + 1))) == match (
            decode_records(words.take(16 * done)),
            decode_record(words.subrange(16 * done, 16 * done + 16)),
        ) {
            (Some(front), Some(light)) => Some(front.push(light)),
            _ => None,
        },
{
    let whole = words.take(16 * (done + 1));
    assert(whole.take(whole.len() - 16) =~= words.take(16 * done));
    assert(whole.skip(whole.len() - 16) =~= words.subrange(16 * done, 16 * done + 16));
}

/// Why lights cannot be packed.
#[derive(Clone, Copy, Debug, PartialEq, Eq, Structural)]
pub enum LightError {
    /// More lights than the count of the buffer, a 32-bit word, can say.
    TooManyLights,
}

/// The words of the light buffer of `lights`.
pub fn encode_lights(lights: &[Light]) -> (words: Result<Vec<u32>, LightError>)
    ensures
        lights@.len() <= u32::MAX <==> words.is_ok(),
        words matches Ok(w) ==> w@ == light_words(lights@) && w@.len() == 1 + 16 * lights@.len(),
{
    if lights.len() > u32::MAX as usize {
        return Err(LightError::TooManyLights);
    }
    let mut words: Vec<u32> = Vec::new();
    words.push(lights.len() as u32);
    let mut i: usize = 0;
    while i < lights.len()
        invariant
            i <= lights@.len(),
            lights@.len() <= u32::MAX,
            words@ == seq![lights@.len() as u32] + records(lights@.take(i as int)),
        decreases lights@.len() - i,
    {
        let ghost before = words@;
        let ghost upto = lights@.take(i + 1);
        proof {
            assert(upto.drop_last() =~= lights@.take(i as int));
            assert(upto.last() == lights@[i as int]);
        }
        match lights[i] {
            Light::Point { color, position } => {
                words.push(POINT_LIGHT_TAG);
                push_vec3(&mut words, color);
                push_vec3(&mut words, position);
                push_zeros(&mut words, 9);
            },
            Light::Triangle { color, vertices } => {
                words.push(TRIANGLE_LIGHT_TAG);
                push_vec3(&mut words, color);
                push_zeros(&mut words, 3);
                push_vec3(&mut words, vertices.a);
                push_vec3(&mut words, vertices.b);
                push_vec3(&mut words, vertices.c);
            },
            Light::Directional { color, position, direction, radius } => {
                words.push(DIRECTIONAL_LIGHT_TAG);
                push_vec3(&mut words, color);
                push_vec3(&mut words, position);
                push_vec3(&mut words, direction);
                words.push(radius);
                push_zeros(&mut words, 5);
            },
        }
        assert(words@ =~= before + record_words(lights@[i as int]));
        assert(words@ =~= seq![lights@.len() as u32] + records(upto));
        i += 1;
    }
    proof {
        assert(lights@.take(i as int) =~= lights@);
        lemma_records_round_trip(lights@);
    }
    Ok(words)
}

/// Appends the three floats of `v`.
fn push_vec3(words: &mut Vec<u32>, v: Vec3)
    ensures
        final(words)@ == old(words)@ + seq![v.x, v.y, v.z],
{
    words.push(v.x);
    words.push(v.y);
    words.push(v.z);
    assert(words@ =~= old(words)@ + seq![v.x, v.y, v.z]);
}

/// Appends `n` words of padding.
fn push_zeros(words: &mut Vec<u32>, n: usize)
    ensures
        final(words)@ == old(words)@ + Seq::new(n as nat, |i: int| 0u32),
{
    let mut i: usize = 0;
    while i < n
        invariant
            i <= n,
            words@ == old(words)@ + Seq::new(i as nat, |j: int| 0u32),
        decreases n - i,
    {
        words.push(0);
        assert(words@ =~= old(words)@ + Seq::new((i + 1) as nat, |j: int| 0u32));
        i += 1;
    }
}

/// The bytes of the light buffer of `lights`, in the byte order of the
/// host.
pub fn light_buffer(lights: &[Light]) -> (bytes: Result<Vec<u8>, LightError>)
    ensures
        lights@.len() <= u32::MAX <==> bytes.is_ok(),
        bytes matches Ok(b) ==> is_native_image(b@, light_words(lights@)) && b@.len() == 4 + 64
            * lights@.len(),
{
    match encode_lights(lights) {
        Ok(words) => Ok(native_bytes(words.as_slice())),
        Err(e) => Err(e),
    }
}

/// What a light buffer holds.
#[derive(Clone, Debug, PartialEq, Eq)]
pub struct DecodedLights {
    /// The count that the buffer opens with.
    pub count: u32,
    /// The lights of its records.
    pub lights: Vec<Light>,
}

/// Reads the words of a light buffer back; `None` where they are not a count
/// and whole records with known tags and zero padding.
pub fn decode_lights(words: &[u32]) -> (decoded: Option<DecodedLights>)
    ensures
        match decoded {
            Some(d) => decode_words(words@) == Some(LightTable { count: d.count, lights: d.lights@ }),
            None => decode_words(words@) is None,
        },
{
    if words.len() == 0 {
        return None;
    }
    let ghost body = words@.skip(1);
    let total: usize = words.len() - 1;
    assert(words@.len() <= usize::MAX);
    if total % 16 != 0 {
        proof {
            lemma_partial_record(body);
        }
        return None;
    }
    let n: usize = total / 16;
    let mut lights: Vec<Light> = Vec::new();
    let mut i: usize = 0;
    let mut good: bool = true;
    while good && i < n
        invariant
            i <= n,
            total == 16 * n,
            total + 1 == words@.len(),
            words@.len() <= usize::MAX,
            body == words@.skip(1),
            good ==> decode_records(body.take(16 * i)) == Some(lights@),
            !good ==> decode_records(body.take(16 * i)) is None,
        decreases n - i + if good { 1int } else { 0int },
    {
        let at: usize = 1 + 16 * i;
        proof {
            lemma_decode_step(body, i as int);
            assert(body.subrange(16 * i, 16 * i + 16) =~= words@.subrange(at as int, at + 16));
        }
        match read_record(words, at) {
            Some(l) => {
                lights.push(l);
            },
            None => {
                good = false;
            },
        }
        i += 1;
    }
    proof {
        if !good {
            lemma_bad_prefix(body, i as int, n as int);
        }
        assert(body.take(16 * n) =~= body);
    }
    if good {
        Some(DecodedLights { count: words[0], lights })
    } else {
        None
    }
}

/// Reads the record that starts at `at`.
fn read_record(words: &[u32], at: usize) -> (light: Option<Light>)
    requires
        at + 16 <= words@.len() <= usize::MAX,
    ensures
        light == decode_record(words@.subrange(at as int, at + 16)),
{
    let ghost chunk = words@.subrange(at as int, at + 16);
    assert(forall|j: int| 0 <= j < 16 ==> chunk[j] == words@[at + j]);
    let color = Vec3 { x: words[at + 1], y: words[at + 2], z: words[at + 3] };
    let tag: u32 = words[at];
    if tag == POINT_LIGHT_TAG {
        let mut k: usize = 7;
        while k < 16
            invariant
                7 <= k <= 16,
                at + 16 <= words@.len() <= usize::MAX,
                chunk == words@.subrange(at as int, at + 16),
                chunk[0] == POINT_LIGHT_TAG,
                forall|j: int| 7 <= j < k ==> chunk[j] == 0,
            decreases 16 - k,
        {
            if words[at + k] != 0 {
                assert(chunk[k as int] != 0);
                return None;
            }
            k += 1;
        }
        Some(
            Light::Point {
                color,
                position: Vec3 { x: words[at + 4], y: words[at + 5], z: words[at + 6] },
            },
        )
    } else if tag == TRIANGLE_LIGHT_TAG {
        if words[at + 4] != 0 || words[at + 5] != 0 || words[at + 6] != 0 {
            return None;
        }
        Some(
            Light::Triangle {
                color,
                vertices: Corners {
                    a: Vec3 { x: words[at + 7], y: words[at + 8], z: words[at + 9] },
                    b: Vec3 { x: words[at + 10], y: words[at + 11], z: words[at + 12] },
                    c: Vec3 { x: words[at + 13], y: words[at + 14], z: words[at + 15] },
                },
            },
        )
    } else if tag == DIRECTIONAL_LIGHT_TAG {
        let mut k: usize = 11;
        while k < 16
            invariant
                11 <= k <= 16,
                at + 16 <= words@.len() <= usize::MAX,
                chunk == words@.subrange(at as int, at + 16),
                chunk[0] == DIRECTIONAL_LIGHT_TAG,
                forall|j: int| 11 <= j < k ==> chunk[j] == 0,
            decreases 16 - k,
        {
            if words[at + k] != 0 {
                assert(chunk[k as int] != 0);
                return None;
            }
            k += 1;
        }
        Some(
            Light::Directional {
                color,
                position: Vec3 { x: words[at + 4], y: words[at + 5], z: words[at + 6] },
                direction: Vec3 { x: words[at + 7], y: words[at + 8], z: words[at + 9] },
                radius: words[at + 10],
            },
        )
    } else {
        None
    }
}

} // verus!
