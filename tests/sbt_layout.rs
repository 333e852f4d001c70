use cubulous::align::{align_u32, checked_align_u64};
use cubulous::sbt::{build_shader_binding_table, compute_sbt_layout, GroupCounts, RtProperties, SbtError, SbtRegion};

fn props(handle_size: u32, handle_alignment: u32, base_alignment: u32) -> RtProperties {
    RtProperties { handle_size, handle_alignment, base_alignment }
}

#[test]
fn align_rounds_up() {
    assert_eq!(align_u32(32, 32), 32);
    assert_eq!(align_u32(33, 32), 64);
    assert_eq!(align_u32(0, 64), 0);
    assert_eq!(align_u32(96, 64), 128);
    assert_eq!(align_u32(5, 3), 6);
    assert_eq!(checked_align_u64(u64::MAX, 2), None);
    assert_eq!(checked_align_u64(u64::MAX - 1, 2), Some(u64::MAX - 1));
}

#[test]
fn raygen_region_of_one_group() {
    let l = compute_sbt_layout(&props(32, 32, 64), &GroupCounts { hit: 1, miss: 1, callable: 0 }).unwrap();
    assert_eq!(l.handle_stride, 32);
    assert_eq!(l.raygen, SbtRegion { offset: 0, stride: 64, size: 64 });
}

#[test]
fn three_hit_groups_round_to_base_alignment() {
    let l = compute_sbt_layout(&props(32, 32, 64), &GroupCounts { hit: 3, miss: 1, callable: 0 }).unwrap();
    assert_eq!(l.handle_stride, 32);
    assert_eq!(l.hit, SbtRegion { offset: 64, stride: 32, size: 128 });
    assert_eq!(l.miss, SbtRegion { offset: 192, stride: 32, size: 64 });
    assert_eq!(l.callable, SbtRegion { offset: 0, stride: 0, size: 0 });
    assert_eq!(l.total_size, 256);
}

#[test]
fn handle_size_below_alignment_pads_stride() {
    let l = compute_sbt_layout(&props(12, 16, 32), &GroupCounts { hit: 2, miss: 0, callable: 1 }).unwrap();
    assert_eq!(l.handle_stride, 16);
    assert_eq!(l.raygen, SbtRegion { offset: 0, stride: 32, size: 32 });
    assert_eq!(l.hit, SbtRegion { offset: 32, stride: 16, size: 32 });
    assert_eq!(l.miss, SbtRegion { offset: 0, stride: 0, size: 0 });
    assert_eq!(l.callable, SbtRegion { offset: 64, stride: 16, size: 32 });
    assert_eq!(l.total_size, 96);
}

#[test]
fn zero_alignment_is_refused() {
    let c = GroupCounts { hit: 1, miss: 1, callable: 0 };
    assert_eq!(compute_sbt_layout(&props(32, 0, 64), &c), Err(SbtError::ZeroAlignment));
    assert_eq!(compute_sbt_layout(&props(32, 32, 0), &c), Err(SbtError::ZeroAlignment));
    assert!(matches!(build_shader_binding_table(&props(32, 0, 64), &c, &vec![0u8; 96]), Err(SbtError::ZeroAlignment)));
}

#[test]
fn oversized_table_is_refused() {
    let c = GroupCounts { hit: u32::MAX, miss: u32::MAX, callable: u32::MAX };
    assert_eq!(compute_sbt_layout(&props(u32::MAX, 0x8000_0000, 0x8000_0000), &c), Err(SbtError::TooLarge));
}

#[test]
fn handles_are_copied_into_padded_slots() {
    let p = props(3, 4, 8);
    let c = GroupCounts { hit: 2, miss: 1, callable: 0 };
    let handles: Vec<u8> = (1..=12).collect();
    let t = build_shader_binding_table(&p, &c, &handles).unwrap();
    assert_eq!(t.layout.total_size, 24);
    assert_eq!(
        t.bytes,
        vec![1, 2, 3, 0, 0, 0, 0, 0, 4, 5, 6, 0, 7, 8, 9, 0, 10, 11, 12, 0, 0, 0, 0, 0]
    );
}

#[test]
fn each_region_starts_on_base_alignment() {
    let p = props(4, 4, 16);
    let c = GroupCounts { hit: 1, miss: 1, callable: 0 };
    let handles: Vec<u8> = (1..=12).collect();
    let t = build_shader_binding_table(&p, &c, &handles).unwrap();
    assert_eq!(t.bytes.len(), 48);
    assert_eq!(&t.bytes[0..4], &[1, 2, 3, 4]);
    assert_eq!(&t.bytes[16..20], &[5, 6, 7, 8]);
    assert_eq!(&t.bytes[32..36], &[9, 10, 11, 12]);
    let nonzero = t.bytes.iter().filter(|b| **b != 0).count();
    assert_eq!(nonzero, 12);
}

#[test]
fn short_handle_data_fails_loudly() {
    let p = props(32, 32, 64);
    let c = GroupCounts { hit: 1, miss: 1, callable: 0 };
    assert!(matches!(build_shader_binding_table(&p, &c, &vec![7u8; 95]), Err(SbtError::HandleDataTooShort)));
    assert!(build_shader_binding_table(&p, &c, &vec![7u8; 96]).is_ok());
}
