//! Rounding sizes and offsets up to device alignments, and the choice of
//! queue families and buffer alignments.

use vstd::prelude::*;

verus! {

/// Whether `alignment` is a power of two.
pub open spec fn is_power_of_two(alignment: u32) -> bool {
    alignment > 0 && alignment & ((alignment - 1) as u32) == 0
}

/// Whether `value` can be rounded up to `alignment` within 32 bits.
pub open spec fn can_align(value: u32, alignment: u32) -> bool {
    alignment >= 1 && value + alignment - 1 <= u32::MAX
}

/// `value` rounded up by the mask of `alignment`: `alignment - 1` is added and
/// the bits that `alignment - 1` covers are cleared.
pub open spec fn mask_round_up(value: u32, alignment: u32) -> u32 {
    ((value + alignment - 1) as u32) & !((alignment - 1) as u32)
}

/// For a power-of-two alignment the masked value is the least multiple of the
/// alignment that is not below `value`.
pub proof fn lemma_mask_round_up_is_least_multiple(value: u32, alignment: u32)
    requires
        is_power_of_two(alignment),
        can_align(value, alignment),
    ensures
        mask_round_up(value, alignment) % alignment == 0,
        value <= mask_round_up(value, alignment) < value + alignment,
{
    let m = (alignment - 1) as u32;
    let s = (value + alignment - 1) as u32;
    assert((s & !m) % alignment == 0 && s & !m <= s && s - (s & !m) <= m) by (bit_vector)
        requires
            alignment > 0,
            alignment & m == 0,
            m == alignment - 1,
    ;
}

/// Masking never rounds below `value`, whatever the alignment.
pub proof fn lemma_mask_round_up_not_below(value: u32, alignment: u32)
    requires
        can_align(value, alignment),
    ensures
        value <= mask_round_up(value, alignment) <= value + alignment - 1,
{
    let m = (alignment - 1) as u32;
    let s = (value + alignment - 1) as u32;
    assert(s & !m <= s && s - (s & !m) <= m) by (bit_vector);
}

/// Rounds `value` up to `alignment`.
pub fn align_up(value: u32, alignment: u32) -> (aligned: u32)
    requires
        can_align(value, alignment),
    ensures
        aligned == mask_round_up(value, alignment),
        is_power_of_two(alignment) ==> aligned % alignment == 0 && value <= aligned < value
            + alignment,
{
    proof {
        if is_power_of_two(alignment) {
            lemma_mask_round_up_is_least_multiple(value, alignment);
        }
    }
    (value + (alignment - 1)) & !(alignment - 1)
}

/// Rounds `value` up to `alignment` where that can be done in 32 bits.
pub fn checked_align_up(value: u32, alignment: u32) -> (aligned: Option<u32>)
    ensures
        can_align(value, alignment) <==> aligned.is_some(),
        aligned matches Some(a) ==> a == mask_round_up(value, alignment),
{
    if alignment == 0 || value > u32::MAX - (alignment - 1) {
        None
    } else {
        Some(align_up(value, alignment))
    }
}

/// The queue families of a device that serve each purpose.
#[derive(Clone, Copy, Debug, Default, PartialEq, Eq)]
pub struct QueueFamilyInfo {
    pub graphics_index: Option<u32>,
    pub present_index: Option<u32>,
    pub compute_index: Option<u32>,
    pub transfer_index: Option<u32>,
}

/// What one queue family of a device can do.
#[derive(Clone, Copy, Debug, PartialEq, Eq)]
pub struct QueueFamily {
    pub graphics: bool,
    pub compute: bool,
    pub transfer: bool,
    /// Whether the family can present to the surface.
    pub present: bool,
}

/// The purposes that a queue family is looked for.
#[derive(Clone, Copy, Debug, PartialEq, Eq, Structural)]
pub enum QueuePurpose {
    Graphics,
    Compute,
    Transfer,
    Present,
}

impl QueueFamily {
    /// Whether the family serves `purpose`.
    pub open spec fn serves(self, purpose: QueuePurpose) -> bool {
        match purpose {
            QueuePurpose::Graphics => self.graphics,
            QueuePurpose::Compute => self.compute,
            QueuePurpose::Transfer => self.transfer,
            QueuePurpose::Present => self.present,
        }
    }

    /// Whether the family serves `purpose`.
    pub fn can(&self, purpose: QueuePurpose) -> (served: bool)
        ensures
            served == self.serves(purpose),
    {
        match purpose {
            QueuePurpose::Graphics => self.graphics,
            QueuePurpose::Compute => self.compute,
            QueuePurpose::Transfer => self.transfer,
            QueuePurpose::Present => self.present,
        }
    }
}

/// `index` is the first family of `families` that serves `purpose`, or
/// `None` where none does.
pub open spec fn is_first_serving(
    families: Seq<QueueFamily>,
    purpose: QueuePurpose,
    index: Option<u32>,
) -> bool {
    match index {
        Some(i) => i < families.len() && families[i as int].serves(purpose) && forall|j: int|
            0 <= j < i ==> !(#[trigger] families[j]).serves(purpose),
        None => forall|j: int| 0 <= j < families.len() ==> !(#[trigger] families[j]).serves(purpose),
    }
}

/// The first family that serves `purpose`.
pub fn first_family(families: &[QueueFamily], purpose: QueuePurpose) -> (index: Option<u32>)
    requires
        families@.len() <= u32::MAX,
    ensures
        is_first_serving(families@, purpose, index),
{
    let mut i: usize = 0;
    while i < families.len()
        invariant
            i <= families@.len() <= u32::MAX,
            forall|j: int| 0 <= j < i ==> !(#[trigger] families@[j]).serves(purpose),
        decreases families@.len() - i,
    {
        if families[i].can(purpose) {
            return Some(i as u32);
        }
        i += 1;
    }
    None
}

/// For each purpose the first family of the device that serves it; `None`
/// where the device reports more families than a 32-bit index can name.
pub fn query_queue_families(families: &[QueueFamily]) -> (info: Option<QueueFamilyInfo>)
    ensures
        families@.len() <= u32::MAX <==> info.is_some(),
        info matches Some(i) ==> {
            &&& is_first_serving(families@, QueuePurpose::Graphics, i.graphics_index)
            &&& is_first_serving(families@, QueuePurpose::Present, i.present_index)
            &&& is_first_serving(families@, QueuePurpose::Compute, i.compute_index)
            &&& is_first_serving(families@, QueuePurpose::Transfer, i.transfer_index)
        },
{
    if families.len() > u32::MAX as usize {
        return None;
    }
    Some(
        QueueFamilyInfo {
            graphics_index: first_family(families, QueuePurpose::Graphics),
            present_index: first_family(families, QueuePurpose::Present),
            compute_index: first_family(families, QueuePurpose::Compute),
            transfer_index: first_family(families, QueuePurpose::Transfer),
        },
    )
}

/// What a buffer is used for, as far as its alignment goes.
#[derive(Clone, Copy, Debug, PartialEq, Eq)]
pub struct BufferUse {
    pub storage_buffer: bool,
    pub uniform_buffer: bool,
}

/// The alignment of offsets into a buffer: that of storage buffers for a
/// storage buffer, else that of uniform buffers for a uniform buffer, else
/// one.
pub open spec fn offset_alignment_of(
    usage: BufferUse,
    min_storage_alignment: u64,
    min_uniform_alignment: u64,
) -> u64 {
    if usage.storage_buffer {
        min_storage_alignment
    } else if usage.uniform_buffer {
        min_uniform_alignment
    } else {
        1
    }
}

/// The alignment of offsets into a buffer of the given use, from the limits
/// of the device.
pub fn offset_alignment(
    usage: BufferUse,
    min_storage_alignment: u64,
    min_uniform_alignment: u64,
) -> (alignment: u64)
    ensures
        alignment == offset_alignment_of(usage, min_storage_alignment, min_uniform_alignment),
{
    if usage.storage_buffer {
        min_storage_alignment
    } else if usage.uniform_buffer {
        min_uniform_alignment
    } else {
        1
    }
}

/// The alignment to allocate a buffer with: what the device requires of the
/// buffer, rounded up to `alignment` where one is asked for. `None` where
/// the rounding does not fit 32 bits.
pub fn memory_alignment(required: u64, alignment: u32) -> (aligned: Option<u64>)
    ensures
        alignment == 0 ==> aligned == Some(required),
        alignment > 0 ==> (aligned.is_some() <==> required <= u32::MAX && can_align(
            required as u32,
            alignment,
        )),
        alignment > 0 ==> (aligned matches Some(a) ==> a == mask_round_up(required as u32, alignment)),
{
    if alignment == 0 {
        Some(required)
    } else if required > u32::MAX as u64 {
        None
    } else {
        match checked_align_up(required as u32, alignment) {
            Some(a) => Some(a as u64),
            None => None,
        }
    }
}

} // verus!
