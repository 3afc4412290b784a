use kubgrupp::render::sbt::{SbtError, SbtLayout, SbtRegion};
use kubgrupp::utils::{align_up, checked_align_up};

fn handles(groups: usize, size: usize) -> Vec<u8> {
    (0..groups * size).map(|i| (i % 251 + 1) as u8).collect()
}

#[test]
fn align_up_rounds_to_the_next_multiple() {
    assert_eq!(align_up(32, 32), 32);
    assert_eq!(align_up(32, 64), 64);
    assert_eq!(align_up(33, 32), 64);
    assert_eq!(align_up(0, 16), 0);
    assert_eq!(align_up(1, 1), 1);
    assert_eq!(align_up(u32::MAX, 1), u32::MAX);
}

#[test]
fn checked_align_up_refuses_what_does_not_fit() {
    assert_eq!(checked_align_up(5, 0), None);
    assert_eq!(checked_align_up(u32::MAX, 2), None);
    assert_eq!(checked_align_up(u32::MAX - 1, 2), Some(u32::MAX - 1));
    assert_eq!(checked_align_up(100, 64), Some(128));
}

#[test]
fn sbt_layout_of_four_groups() {
    let layout = SbtLayout::new(32, 32, 64, 4).unwrap();
    assert_eq!(layout.handle_size(), 32);
    assert_eq!(layout.handle_stride(), 32);
    assert_eq!(layout.base_stride(), 64);
    assert_eq!(layout.group_count(), 4);
    assert_eq!(layout.table_size(), 192);
    assert_eq!(layout.source_size(), 128);
    assert_eq!(layout.slot_offset(0), Some(0));
    assert_eq!(layout.slot_offset(1), Some(64));
    assert_eq!(layout.slot_offset(2), Some(128));
    assert_eq!(layout.slot_offset(3), Some(160));
    assert_eq!(layout.slot_offset(4), None);
}

#[test]
fn sbt_packs_handles_byte_for_byte_and_pads_with_zero() {
    let layout = SbtLayout::new(32, 32, 64, 4).unwrap();
    let source = handles(4, 32);
    let table = layout.pack(&source).unwrap();
    assert_eq!(table.len(), 192);
    assert_eq!(&table[0..32], &source[0..32]);
    assert!(table[32..64].iter().all(|b| *b == 0));
    assert_eq!(&table[64..96], &source[32..64]);
    assert!(table[96..128].iter().all(|b| *b == 0));
    assert_eq!(&table[128..160], &source[64..96]);
    assert_eq!(&table[160..192], &source[96..128]);
}

#[test]
fn sbt_packs_any_number_of_groups() {
    for groups in 2..9usize {
        let layout = SbtLayout::new(20, 8, 32, groups).unwrap();
        assert_eq!(layout.handle_stride(), 24);
        assert_eq!(layout.base_stride(), 32);
        assert_eq!(layout.table_size(), 64 + (groups - 2) * 24);
        let source = handles(groups, 20);
        let table = layout.pack(&source).unwrap();
        assert_eq!(table.len(), layout.table_size());
        let mut covered = vec![false; table.len()];
        for g in 0..groups {
            let at = layout.slot_offset(g).unwrap();
            assert_eq!(&table[at..at + 20], &source[g * 20..g * 20 + 20]);
            for c in covered[at..at + 20].iter_mut() {
                assert!(!*c);
                *c = true;
            }
        }
        for (p, c) in covered.iter().enumerate() {
            if !*c {
                assert_eq!(table[p], 0);
            }
        }
    }
}

#[test]
fn sbt_with_raygen_and_miss_alone() {
    let layout = SbtLayout::new(32, 32, 64, 2).unwrap();
    assert_eq!(layout.table_size(), 128);
    let regions = layout.regions(0x1000).unwrap();
    assert_eq!(regions.hit.size, 0);
    assert_eq!(regions.hit.device_address, 0x1000 + 128);
}

#[test]
fn sbt_regions_of_four_groups() {
    let layout = SbtLayout::new(32, 32, 64, 4).unwrap();
    let regions = layout.regions(0x10000).unwrap();
    assert_eq!(
        regions.raygen,
        SbtRegion { device_address: 0x10000, stride: 32, size: 32 }
    );
    assert_eq!(
        regions.miss,
        SbtRegion { device_address: 0x10040, stride: 32, size: 32 }
    );
    assert_eq!(
        regions.hit,
        SbtRegion { device_address: 0x10080, stride: 32, size: 64 }
    );
    assert_eq!(
        regions.callable,
        SbtRegion { device_address: 0, stride: 0, size: 0 }
    );
    assert!(layout.regions(u64::MAX - 100).is_none());
    assert!(layout.regions(u64::MAX - 192).is_some());
}

#[test]
fn sbt_errors() {
    assert_eq!(SbtLayout::new(32, 32, 64, 0).unwrap_err(), SbtError::TooFewGroups);
    assert_eq!(SbtLayout::new(32, 32, 64, 1).unwrap_err(), SbtError::TooFewGroups);
    assert_eq!(SbtLayout::new(32, 0, 64, 3).unwrap_err(), SbtError::Alignment);
    assert_eq!(SbtLayout::new(32, 32, 0, 3).unwrap_err(), SbtError::Alignment);
    assert_eq!(
        SbtLayout::new(u32::MAX, 64, 64, 3).unwrap_err(),
        SbtError::Alignment
    );
    if usize::BITS == 64 {
        assert_eq!(
            SbtLayout::new(32, 32, 64, (u32::MAX as usize) + 1).unwrap_err(),
            SbtError::TooLarge
        );
    }
    let layout = SbtLayout::new(32, 32, 64, 3).unwrap();
    assert_eq!(layout.pack(&[0u8; 95]).unwrap_err(), SbtError::HandleData);
    assert_eq!(layout.pack(&[0u8; 97]).unwrap_err(), SbtError::HandleData);
    assert!(layout.pack(&[0u8; 96]).is_ok());
}

#[test]
fn sbt_with_handles_of_no_size() {
    let layout = SbtLayout::new(0, 32, 64, 3).unwrap();
    assert_eq!(layout.table_size(), 0);
    assert_eq!(layout.pack(&[]).unwrap(), Vec::<u8>::new());
}
