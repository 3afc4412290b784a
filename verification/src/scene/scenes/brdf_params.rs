//! The buffer of material parameters and the place of each instance in it.
//!
//! The parameters of the instances of one material stand together, in the
//! order of the instances, as an array of records of one size. The arrays
//! follow one another in the order of the materials, each padded in front
//! with zeros so that it starts at a multiple of the size of its records.
//! What an instance gets is the index of its record, counted in records of
//! its material from the start of the buffer.

use crate::scene::scenes::mesh::Object;
use vstd::prelude::*;

verus! {

/// Why the parameters cannot be packed.
#[derive(Clone, Copy, Debug, PartialEq, Eq, Structural)]
pub enum BrdfError {
    /// The object with this index names a material that the scene does not
    /// have.
    MaterialIndex(usize),
    /// The index of the record of the object with this index does not fit 32
    /// bits.
    OffsetTooLarge(usize),
}

/// The parameters of the first `n` objects that have the material `brdf`,
/// one behind the other.
pub open spec fn material_params(objects: Seq<Object>, brdf: int, n: int) -> Seq<u8>
    decreases n,
{
    if n <= 0 {
        Seq::empty()
    } else if objects[n - 1].brdf_i == brdf {
        material_params(objects, brdf, n - 1) + objects[n - 1].brdf_params@
    } else {
        material_params(objects, brdf, n - 1)
    }
}

/// The size of a record of the material `brdf`: the size of the parameters
/// of the last of the first `n` objects that has the material; zero where
/// none has it.
pub open spec fn material_size(objects: Seq<Object>, brdf: int, n: int) -> nat
    decreases n,
{
    if n <= 0 {
        0
    } else if objects[n - 1].brdf_i == brdf {
        objects[n - 1].brdf_params@.len()
    } else {
        material_size(objects, brdf, n - 1)
    }
}

/// The number of the first `n` objects that have the material `brdf`.
pub open spec fn material_uses(objects: Seq<Object>, brdf: int, n: int) -> nat
    decreases n,
{
    if n <= 0 {
        0
    } else if objects[n - 1].brdf_i == brdf {
        material_uses(objects, brdf, n - 1) + 1
    } else {
        material_uses(objects, brdf, n - 1)
    }
}

/// The zeros in front of an array of records of `size` bytes that follows
/// `len` bytes.
pub open spec fn padding(len: nat, size: nat) -> nat {
    if size == 0 || len % size == 0 {
        0
    } else {
        (size - len % size) as nat
    }
}

/// The buffer with the arrays of the first `brdfs` materials.
pub open spec fn packed_params(objects: Seq<Object>, brdfs: int) -> Seq<u8>
    decreases brdfs,
{
    if brdfs <= 0 {
        Seq::empty()
    } else {
        let before = packed_params(objects, brdfs - 1);
        let size = material_size(objects, brdfs - 1, objects.len() as int);
        if size == 0 {
            before
        } else {
            before + Seq::new(padding(before.len(), size), |i: int| 0u8) + material_params(
                objects,
                brdfs - 1,
                objects.len() as int,
            )
        }
    }
}

/// The index of the first record of the material `brdf`, in records of the
/// material; zero for a material without parameters.
pub open spec fn first_record(objects: Seq<Object>, brdf: int) -> nat {
    let before = packed_params(objects, brdf);
    let size = material_size(objects, brdf, objects.len() as int);
    if size == 0 {
        0
    } else {
        (before.len() + padding(before.len(), size)) / size
    }
}

/// The index of the record of the object with index `k`: the first record
/// of its material, and one more for each object before it that has the
/// material.
pub open spec fn record_index(objects: Seq<Object>, k: int) -> nat {
    let brdf = objects[k].brdf_i as int;
    first_record(objects, brdf) + material_uses(objects, brdf, k)
}

/// What packing comes to as the contracts see it.
pub ghost struct Packed {
    pub data: Seq<u8>,
    pub offsets: Seq<u32>,
}

/// Whether `result` is what packing the parameters of `objects` for `brdfs`
/// materials comes to.
pub open spec fn is_packed_result(
    objects: Seq<Object>,
    brdfs: nat,
    result: Result<Packed, BrdfError>,
) -> bool {
    match result {
        Ok(packed) => {
            &&& forall|k: int| 0 <= k < objects.len() ==> (#[trigger] objects[k]).brdf_i < brdfs
            &&& packed.data == packed_params(objects, brdfs as int)
            &&& packed.offsets.len() == objects.len()
            &&& forall|k: int|
                0 <= k < objects.len() ==> #[trigger] packed.offsets[k] == record_index(objects, k)
        },
        Err(BrdfError::MaterialIndex(k)) => {
            &&& k < objects.len()
            &&& objects[k as int].brdf_i >= brdfs
            &&& forall|j: int| 0 <= j < k ==> (#[trigger] objects[j]).brdf_i < brdfs
        },
        Err(BrdfError::OffsetTooLarge(k)) => {
            &&& forall|j: int| 0 <= j < objects.len() ==> (#[trigger] objects[j]).brdf_i < brdfs
            &&& k < objects.len()
            &&& record_index(objects, k as int) > u32::MAX
            &&& forall|j: int| 0 <= j < k ==> #[trigger] record_index(objects, j) <= u32::MAX
        },
    }
}

/// The parameters and the size of a record of the material `brdf`.
fn gather(objects: &[Object], brdf: usize) -> (gathered: (Vec<u8>, usize))
    ensures
        gathered.0@ == material_params(objects@, brdf as int, objects@.len() as int),
        gathered.1 == material_size(objects@, brdf as int, objects@.len() as int),
{
    let mut params: Vec<u8> = Vec::new();
    let mut size: usize = 0;
    let mut k: usize = 0;
    while k < objects.len()
        invariant
            k <= objects@.len(),
            params@ == material_params(objects@, brdf as int, k as int),
            size == material_size(objects@, brdf as int, k as int),
        decreases objects@.len() - k,
    {
        if objects[k].brdf_i == brdf {
            params.extend_from_slice(objects[k].brdf_params.as_slice());
            size = objects[k].brdf_params.len();
        }
        k += 1;
    }
    (params, size)
}

/// The buffer of material parameters of `objects`, for a scene of
/// `hit_shaders` materials, and for each object the index of its record.
pub fn get_brdf_params_buffer_and_indices(objects: &[Object], hit_shaders: usize) -> (packed:
    Result<(Vec<u8>, Vec<u32>), BrdfError>)
    ensures
        is_packed_result(
            objects@,
            hit_shaders as nat,
            match packed {
                Ok((data, offsets)) => Ok(Packed { data: data@, offsets: offsets@ }),
                Err(e) => Err(e),
            },
        ),
{
    let mut k: usize = 0;
    while k < objects.len()
        invariant
            k <= objects@.len(),
            forall|j: int| 0 <= j < k ==> (#[trigger] objects@[j]).brdf_i < hit_shaders,
        decreases objects@.len() - k,
    {
        if objects[k].brdf_i >= hit_shaders {
            return Err(BrdfError::MaterialIndex(k));
        }
        k += 1;
    }
    let mut data: Vec<u8> = Vec::new();
    let mut next: Vec<u64> = Vec::new();
    let mut b: usize = 0;
    while b < hit_shaders
        invariant
            b <= hit_shaders,
            data@ == packed_params(objects@, b as int),
            next@.len() == b,
            forall|m: int| 0 <= m < b ==> #[trigger] next@[m] == first_record(objects@, m),
        decreases hit_shaders - b,
    {
        let (params, size) = gather(objects, b);
        if size == 0 {
            next.push(0);
        } else {
            let rest: usize = data.len() % size;
            if rest != 0 {
                let ghost before = data@;
                let mut z: usize = 0;
                let zeros: usize = size - rest;
                while z < zeros
                    invariant
                        z <= zeros,
                        data@ == before + Seq::new(z as nat, |i: int| 0u8),
                    decreases zeros - z,
                {
                    data.push(0);
                    assert(data@ =~= before + Seq::new((z + 1) as nat, |i: int| 0u8));
                    z += 1;
                }
            } else {
                assert(data@ =~= data@ + Seq::new(0nat, |i: int| 0u8));
            }
            next.push((data.len() / size) as u64);
            data.extend_from_slice(params.as_slice());
        }
        b += 1;
    }
    let mut offsets: Vec<u32> = Vec::new();
    let mut k: usize = 0;
    while k < objects.len()
        invariant
            k <= objects@.len(),
            forall|j: int| 0 <= j < objects@.len() ==> (#[trigger] objects@[j]).brdf_i < hit_shaders,
            data@ == packed_params(objects@, hit_shaders as int),
            next@.len() == hit_shaders,
            forall|m: int|
                0 <= m < hit_shaders ==> #[trigger] next@[m] == first_record(objects@, m)
                    + material_uses(objects@, m, k as int),
            offsets@.len() == k,
            forall|j: int| 0 <= j < k ==> #[trigger] offsets@[j] == record_index(objects@, j),
        decreases objects@.len() - k,
    {
        let brdf: usize = objects[k].brdf_i;
        let index: u64 = next[brdf];
        if index > u32::MAX as u64 {
            proof {
                assert(index == record_index(objects@, k as int));
                assert forall|j: int| 0 <= j < k implies #[trigger] record_index(objects@, j)
                    <= u32::MAX by {
                    assert(offsets@[j] == record_index(objects@, j));
                }
            }
            return Err(BrdfError::OffsetTooLarge(k));
        }
        offsets.push(index as u32);
        next.set(brdf, index + 1);
        k += 1;
    }
    Ok((data, offsets))
}

} // verus!
