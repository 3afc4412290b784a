//! Shader binding table: aligned layout, packing of the group handles and the
//! regions handed to a trace-rays dispatch.
//!
//! Group 0 is the ray generation group, group 1 the miss group and every
//! further group a hit group. The ray generation and the miss handle each
//! start a region of their own, so each sits at a multiple of the base
//! stride; hit handles follow one another at the handle stride.

use crate::utils::{can_align, checked_align_up, mask_round_up};
use vstd::prelude::*;

verus! {

/// The shape of a table: sizes in bytes and the number of shader groups.
pub ghost struct SbtShape {
    pub handle_size: nat,
    pub handle_stride: nat,
    pub base_stride: nat,
    pub group_count: nat,
}

impl SbtShape {
    /// A table has a ray generation and a miss group, and a handle fits into
    /// either stride.
    pub open spec fn valid(self) -> bool {
        &&& self.group_count >= 2
        &&& self.handle_size <= self.handle_stride
        &&& self.handle_size <= self.base_stride
    }

    /// Bytes in the packed table.
    pub open spec fn table_size(self) -> nat {
        (2 * self.base_stride + (self.group_count - 2) * self.handle_stride) as nat
    }

    /// Bytes in the unaligned handle data that the pipeline reports.
    pub open spec fn source_size(self) -> nat {
        self.group_count * self.handle_size
    }

    /// Where the handle of `group` starts in the packed table.
    pub open spec fn slot_offset(self, group: int) -> int {
        if group <= 0 {
            0
        } else if group == 1 {
            self.base_stride as int
        } else {
            2 * self.base_stride + (group - 2) * self.handle_stride
        }
    }

    /// Position in the packed table of byte `byte` of the handle of `group`.
    pub open spec fn dest_index(self, group: int, byte: int) -> int {
        self.slot_offset(group) + byte
    }

    /// Position in the unaligned handle data of byte `byte` of the handle of
    /// `group`.
    pub open spec fn source_index(self, group: int, byte: int) -> int {
        group * self.handle_size + byte
    }

    /// Whether `position` lies in the slot of `group`.
    pub open spec fn in_slot(self, group: int, position: int) -> bool {
        self.slot_offset(group) <= position < self.slot_offset(group) + self.handle_size
    }

    /// Whether `position` lies in the slot of one of the first `groups`
    /// groups.
    pub open spec fn covered(self, groups: int, position: int) -> bool {
        exists|g: int| 0 <= g < groups && #[trigger] self.in_slot(g, position)
    }

    /// `table` is the packed form of `source`: every handle stands byte for
    /// byte in its slot, and every byte outside the slots is zero.
    pub open spec fn is_packing(self, source: Seq<u8>, table: Seq<u8>) -> bool {
        &&& table.len() == self.table_size()
        &&& forall|g: int, b: int|
            0 <= g < self.group_count && 0 <= b < self.handle_size ==> table[#[trigger] self.dest_index(
                g,
                b,
            )] == source[self.source_index(g, b)]
        &&& forall|p: int|
            0 <= p < table.len() && !self.covered(self.group_count as int, p) ==> #[trigger] table[p]
                == 0
    }

    /// Slots follow one another without overlap.
    pub proof fn lemma_slots_ordered(self, first: int, second: int)
        requires
            self.valid(),
            0 <= first < second,
        ensures
            self.slot_offset(first) + self.handle_size <= self.slot_offset(second),
    {
        if first >= 2 {
            assert((second - 2) * self.handle_stride >= (first - 2) * self.handle_stride
                + self.handle_stride) by (nonlinear_arith)
                requires
                    2 <= first < second,
                    self.handle_stride >= 0,
            ;
        } else if second >= 2 {
            assert((second - 2) * self.handle_stride >= 0) by (nonlinear_arith)
                requires
                    second >= 2,
                    self.handle_stride >= 0,
            ;
        }
    }

    /// The slot after the last group's ends where the table ends.
    pub proof fn lemma_slot_step(self, group: int)
        requires
            self.valid(),
            0 <= group,
        ensures
            group >= 2 ==> self.slot_offset(group + 1) == self.slot_offset(group)
                + self.handle_stride,
            self.slot_offset(self.group_count as int) == self.table_size(),
            group < self.group_count ==> self.slot_offset(group) + self.handle_size
                <= self.table_size(),
            group < self.group_count ==> self.source_index(group, self.handle_size as int)
                <= self.source_size(),
            self.source_index(group + 1, 0) == self.source_index(group, self.handle_size as int),
    {
        assert((group + 1 - 2) * self.handle_stride == (group - 2) * self.handle_stride
            + self.handle_stride) by (nonlinear_arith);
        assert((group + 1) * self.handle_size == group * self.handle_size + self.handle_size)
            by (nonlinear_arith);
        if group < self.group_count {
            self.lemma_slots_ordered(group, self.group_count as int);
            assert((group + 1) * self.handle_size <= self.group_count * self.handle_size)
                by (nonlinear_arith)
                requires
                    group + 1 <= self.group_count,
                    self.handle_size >= 0,
            ;
        }
    }

    /// A packing is determined by the handle data: two tables that pack the
    /// same data are equal.
    pub proof fn lemma_packing_unique(self, source: Seq<u8>, first: Seq<u8>, second: Seq<u8>)
        requires
            self.valid(),
            self.is_packing(source, first),
            self.is_packing(source, second),
        ensures
            first == second,
    {
        assert forall|p: int| 0 <= p < first.len() implies first[p] == second[p] by {
            if self.covered(self.group_count as int, p) {
                let g = choose|g: int| 0 <= g < self.group_count && #[trigger] self.in_slot(g, p);
                let b = p - self.slot_offset(g);
                assert(self.dest_index(g, b) == p);
            }
        }
        assert(first =~= second);
    }
}

/// Why a table cannot be laid out or packed.
#[derive(Clone, Copy, Debug, PartialEq, Eq, Structural)]
pub enum SbtError {
    /// Fewer than two shader groups: the ray generation or the miss group is
    /// missing.
    TooFewGroups,
    /// The handle size cannot be rounded up to one of the alignments.
    Alignment,
    /// The table or the handle data does not fit the address space.
    TooLarge,
    /// The handle data is not `group_count * handle_size` bytes long.
    HandleData,
}

/// One region of the table as a dispatch takes it.
#[derive(Clone, Copy, Debug, PartialEq, Eq, Structural)]
pub struct SbtRegion {
    pub device_address: u64,
    pub stride: u64,
    pub size: u64,
}

/// The four regions of a dispatch.
#[derive(Clone, Copy, Debug, PartialEq, Eq, Structural)]
pub struct SbtRegions {
    pub raygen: SbtRegion,
    pub miss: SbtRegion,
    pub hit: SbtRegion,
    pub callable: SbtRegion,
}

/// The layout of a table for one pipeline on one device.
#[derive(Clone, Copy, Debug)]
pub struct SbtLayout {
    handle_size: u32,
    handle_stride: u32,
    base_stride: u32,
    group_count: u32,
    table_size: usize,
    source_size: usize,
}

impl View for SbtLayout {
    type V = SbtShape;

    closed spec fn view(&self) -> SbtShape {
        SbtShape {
            handle_size: self.handle_size as nat,
            handle_stride: self.handle_stride as nat,
            base_stride: self.base_stride as nat,
            group_count: self.group_count as nat,
        }
    }
}

/// The shape that `SbtLayout::new` gives the table.
pub open spec fn shape_for(
    handle_size: u32,
    handle_alignment: u32,
    base_alignment: u32,
    group_count: usize,
) -> SbtShape {
    SbtShape {
        handle_size: handle_size as nat,
        handle_stride: mask_round_up(handle_size, handle_alignment) as nat,
        base_stride: mask_round_up(handle_size, base_alignment) as nat,
        group_count: group_count as nat,
    }
}

/// The error of `SbtLayout::new` on the given input, if any. The checks are
/// made in this order.
pub open spec fn layout_error(
    handle_size: u32,
    handle_alignment: u32,
    base_alignment: u32,
    group_count: usize,
) -> Option<SbtError> {
    let shape = shape_for(handle_size, handle_alignment, base_alignment, group_count);
    if group_count < 2 {
        Some(SbtError::TooFewGroups)
    } else if !can_align(handle_size, handle_alignment) || !can_align(handle_size, base_alignment) {
        Some(SbtError::Alignment)
    } else if group_count > u32::MAX || shape.table_size() > usize::MAX || shape.source_size()
        > usize::MAX {
        Some(SbtError::TooLarge)
    } else {
        None
    }
}

impl SbtLayout {
    #[verifier::type_invariant]
    spec fn inv(self) -> bool {
        &&& self@.valid()
        &&& self.table_size == self@.table_size()
        &&& self.source_size == self@.source_size()
    }

    /// Lays the table out for `group_count` groups from the sizes that the
    /// device reports.
    pub fn new(
        handle_size: u32,
        handle_alignment: u32,
        base_alignment: u32,
        group_count: usize,
    ) -> (layout: Result<SbtLayout, SbtError>)
        ensures
            match layout {
                Ok(l) => layout_error(handle_size, handle_alignment, base_alignment, group_count)
                    is None && l@.valid() && l@ == shape_for(
                    handle_size,
                    handle_alignment,
                    base_alignment,
                    group_count,
                ),
                Err(e) => layout_error(handle_size, handle_alignment, base_alignment, group_count)
                    == Some(e),
            },
    {
        if group_count < 2 {
            return Err(SbtError::TooFewGroups);
        }
        let handle_stride: u32 = match checked_align_up(handle_size, handle_alignment) {
            Some(s) => s,
            None => { return Err(SbtError::Alignment); },
        };
        let base_stride: u32 = match checked_align_up(handle_size, base_alignment) {
            Some(s) => s,
            None => { return Err(SbtError::Alignment); },
        };
        if group_count > u32::MAX as usize {
            return Err(SbtError::TooLarge);
        }
        let ghost shape = shape_for(handle_size, handle_alignment, base_alignment, group_count);
        let hits: u128 = (group_count - 2) as u128;
        assert(hits * (handle_stride as u128) <= 0xffff_ffff * 0xffff_ffff) by (nonlinear_arith)
            requires
                hits <= 0xffff_ffff,
                handle_stride <= 0xffff_ffff,
        ;
        assert((group_count as u128) * (handle_size as u128) <= 0xffff_ffff * 0xffff_ffff)
            by (nonlinear_arith)
            requires
                group_count <= 0xffff_ffff,
                handle_size <= 0xffff_ffff,
        ;
        let table_size: u128 = 2 * (base_stride as u128) + hits * (handle_stride as u128);
        let source_size: u128 = (group_count as u128) * (handle_size as u128);
        assert(table_size == shape.table_size());
        assert(source_size == shape.source_size());
        if table_size > usize::MAX as u128 || source_size > usize::MAX as u128 {
            return Err(SbtError::TooLarge);
        }
        proof {
            crate::utils::lemma_mask_round_up_not_below(handle_size, handle_alignment);
            crate::utils::lemma_mask_round_up_not_below(handle_size, base_alignment);
        }
        Ok(
            SbtLayout {
                handle_size,
                handle_stride,
                base_stride,
                group_count: group_count as u32,
                table_size: table_size as usize,
                source_size: source_size as usize,
            },
        )
    }

    /// Bytes of one handle.
    pub fn handle_size(&self) -> (size: usize)
        ensures
            size == self@.handle_size,
    {
        self.handle_size as usize
    }

    /// Distance between two hit handles.
    pub fn handle_stride(&self) -> (stride: usize)
        ensures
            stride == self@.handle_stride,
    {
        self.handle_stride as usize
    }

    /// Distance from the start of the table to the miss handle, and from
    /// there to the first hit handle.
    pub fn base_stride(&self) -> (stride: usize)
        ensures
            stride == self@.base_stride,
    {
        self.base_stride as usize
    }

    /// Number of shader groups.
    pub fn group_count(&self) -> (count: usize)
        ensures
            count == self@.group_count,
    {
        self.group_count as usize
    }

    /// Bytes in the packed table. Every layout is valid, and its table fits
    /// the address space.
    pub fn table_size(&self) -> (size: usize)
        ensures
            size == self@.table_size(),
            self@.valid(),
    {
        proof {
            use_type_invariant(self);
        }
        self.table_size
    }

    /// Bytes of handle data to ask the pipeline for.
    pub fn source_size(&self) -> (size: usize)
        ensures
            size == self@.source_size(),
    {
        proof {
            use_type_invariant(self);
        }
        self.source_size
    }

    /// Where the handle of `group` starts in the packed table; `None` for a
    /// group that the table does not have.
    pub fn slot_offset(&self, group: usize) -> (offset: Option<usize>)
        ensures
            group < self@.group_count <==> offset.is_some(),
            offset matches Some(o) ==> o == self@.slot_offset(group as int),
    {
        proof {
            use_type_invariant(self);
        }
        if group >= self.group_count as usize {
            None
        } else if group == 0 {
            Some(0)
        } else if group == 1 {
            Some(self.base_stride as usize)
        } else {
            proof {
                self@.lemma_slot_step(group as int);
                assert((group - 2) * self.handle_stride >= 0) by (nonlinear_arith)
                    requires
                        group >= 2,
                        self.handle_stride >= 0,
                ;
            }
            Some(2 * (self.base_stride as usize) + (group - 2) * (self.handle_stride as usize))
        }
    }

    /// Packs the unaligned handle data of the pipeline into the table.
    pub fn pack(&self, handles: &[u8]) -> (table: Result<Vec<u8>, SbtError>)
        ensures
            handles@.len() == self@.source_size() <==> table.is_ok(),
            table matches Ok(t) ==> self@.is_packing(handles@, t@),
            table matches Err(e) ==> e == SbtError::HandleData,
    {
        proof {
            use_type_invariant(self);
        }
        if handles.len() != self.source_size {
            return Err(SbtError::HandleData);
        }
        let ghost shape = self@;
        let handle_size: usize = self.handle_size as usize;
        let count: usize = self.group_count as usize;
        let mut table: Vec<u8> = vec![0u8; self.table_size];
        let mut group: usize = 0;
        let mut dst: usize = 0;
        let mut src: usize = 0;
        while group < count
            invariant
                shape == self@,
                shape.valid(),
                handle_size == shape.handle_size,
                count == shape.group_count,
                self.table_size == shape.table_size(),
                handles@.len() == shape.source_size(),
                table@.len() == shape.table_size(),
                shape.table_size() <= usize::MAX,
                shape.source_size() <= usize::MAX,
                group <= count,
                dst == shape.slot_offset(group as int),
                src == shape.source_index(group as int, 0),
                forall|g: int, b: int|
                    0 <= g < group && 0 <= b < handle_size ==> table@[#[trigger] shape.dest_index(
                        g,
                        b,
                    )] == handles@[shape.source_index(g, b)],
                forall|p: int|
                    0 <= p < table@.len() && !shape.covered(group as int, p) ==> #[trigger] table@[p]
                        == 0,
            decreases count - group,
        {
            proof {
                shape.lemma_slot_step(group as int);
            }
            let mut byte: usize = 0;
            while byte < handle_size
                invariant
                    shape == self@,
                    shape.valid(),
                    handle_size == shape.handle_size,
                    count == shape.group_count,
                    handles@.len() == shape.source_size(),
                    table@.len() == shape.table_size(),
                    shape.table_size() <= usize::MAX,
                    shape.source_size() <= usize::MAX,
                    group < count,
                    byte <= handle_size,
                    dst == shape.slot_offset(group as int),
                    src == shape.source_index(group as int, 0),
                    dst + handle_size <= table@.len(),
                    src + handle_size <= handles@.len(),
                    forall|g: int, b: int|
                        0 <= g < group && 0 <= b < handle_size ==> table@[#[trigger] shape.dest_index(
                            g,
                            b,
                        )] == handles@[shape.source_index(g, b)],
                    forall|b: int|
                        0 <= b < byte ==> table@[#[trigger] shape.dest_index(group as int, b)]
                            == handles@[shape.source_index(group as int, b)],
                    forall|p: int|
                        0 <= p < table@.len() && !shape.covered(group as int, p) && !(dst <= p < dst
                            + byte) ==> #[trigger] table@[p] == 0,
                decreases handle_size - byte,
            {
                let ghost before = table@;
                let value: u8 = handles[src + byte];
                let position: usize = dst + byte;
                table[position] = value;
                proof {
                    assert forall|g: int, b: int|
                        0 <= g < group && 0 <= b < handle_size implies table@[#[trigger] shape.dest_index(
                        g,
                        b,
                    )] == handles@[shape.source_index(g, b)] by {
                        shape.lemma_slots_ordered(g, group as int);
                        assert(before[shape.dest_index(g, b)] == handles@[shape.source_index(g, b)]);
                    }
                    assert forall|b: int| 0 <= b < byte + 1 implies table@[#[trigger] shape.dest_index(
                        group as int,
                        b,
                    )] == handles@[shape.source_index(group as int, b)] by {
                        if b < byte {
                            assert(before[shape.dest_index(group as int, b)]
                                == handles@[shape.source_index(group as int, b)]);
                        }
                    }
                }
                byte += 1;
            }
            proof {
                let next = group + 1;
                assert forall|p: int|
                    0 <= p < table@.len() && !shape.covered(next as int, p) implies #[trigger] table@[p]
                    == 0 by {
                    if shape.covered(group as int, p) {
                        let g = choose|g: int| 0 <= g < group && #[trigger] shape.in_slot(g, p);
                        assert(shape.in_slot(g, p) && 0 <= g < next);
                    }
                    if dst <= p < dst + handle_size {
                        assert(shape.in_slot(group as int, p));
                    }
                }
            }
            proof {
                if group + 1 < count {
                    shape.lemma_slots_ordered(group + 1, count as int);
                }
            }
            src += handle_size;
            if group == 0 {
                dst = self.base_stride as usize;
            } else if group == 1 {
                dst = 2 * (self.base_stride as usize);
            } else {
                dst += self.handle_stride as usize;
            }
            proof {
                if group + 1 < count {
                    shape.lemma_slot_step(group + 1);
                }
            }
            group += 1;
        }
        Ok(table)
    }

    /// The regions of a dispatch for a table that lies at `table_address`;
    /// `None` where the table would reach past the end of the address space.
    pub fn regions(&self, table_address: u64) -> (regions: Option<SbtRegions>)
        ensures
            table_address + self@.table_size() <= u64::MAX <==> regions.is_some(),
            regions matches Some(r) ==> r == regions_at(self@, table_address),
    {
        proof {
            use_type_invariant(self);
            self@.lemma_slot_step(self.group_count as int);
            assert((self.group_count - 2) * self.handle_stride >= 0) by (nonlinear_arith)
                requires
                    self.group_count >= 2,
                    self.handle_stride >= 0,
            ;
        }
        if self.table_size as u128 + table_address as u128 > u64::MAX as u128 {
            return None;
        }
        let stride: u64 = self.handle_stride as u64;
        let base: u64 = self.base_stride as u64;
        let hits: u64 = (self.group_count - 2) as u64;
        Some(
            SbtRegions {
                raygen: SbtRegion { device_address: table_address, stride, size: stride },
                miss: SbtRegion { device_address: table_address + base, stride, size: stride },
                hit: SbtRegion {
                    device_address: table_address + 2 * base,
                    stride,
                    size: hits * stride,
                },
                callable: SbtRegion { device_address: 0, stride: 0, size: 0 },
            },
        )
    }
}

/// The regions of a table of shape `shape` at `table_address`: one handle
/// each for ray generation and miss, the hit handles behind them, and no
/// callable region.
pub open spec fn regions_at(shape: SbtShape, table_address: u64) -> SbtRegions {
    SbtRegions {
        raygen: SbtRegion {
            device_address: table_address,
            stride: shape.handle_stride as u64,
            size: shape.handle_stride as u64,
        },
        miss: SbtRegion {
            device_address: (table_address + shape.base_stride) as u64,
            stride: shape.handle_stride as u64,
            size: shape.handle_stride as u64,
        },
        hit: SbtRegion {
            device_address: (table_address + 2 * shape.base_stride) as u64,
            stride: shape.handle_stride as u64,
            size: ((shape.group_count - 2) * shape.handle_stride) as u64,
        },
        callable: SbtRegion { device_address: 0, stride: 0, size: 0 },
    }
}

} // verus!
