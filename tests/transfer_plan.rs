use cubulous::transfer::{copy_region, plan_upload, CopyRegion, MemoryPlacement, TransferError, UploadPlan};

#[test]
fn device_local_upload_is_staged() {
    let p = plan_upload(4, 3, MemoryPlacement::DeviceLocal).unwrap();
    assert_eq!(
        p,
        UploadPlan { data_size: 12, item_count: 3, staged: true, copy: CopyRegion { src_offset: 0, dst_offset: 0, size: 12 } }
    );
}

#[test]
fn host_visible_upload_is_direct() {
    let p = plan_upload(64, 2, MemoryPlacement::HostVisible).unwrap();
    assert!(!p.staged);
    assert_eq!(p.data_size, 128);
    assert_eq!(p.item_count, 2);
}

#[test]
fn empty_and_oversized_uploads_fail() {
    assert_eq!(plan_upload(4, 0, MemoryPlacement::DeviceLocal), Err(TransferError::Empty));
    assert_eq!(plan_upload(0, 5, MemoryPlacement::DeviceLocal), Err(TransferError::Empty));
    assert_eq!(plan_upload(usize::MAX, 2, MemoryPlacement::HostVisible), Err(TransferError::TooLarge));
}

#[test]
fn upload_then_read_back_gives_same_bytes() {
    // Three 12-byte items.
    let items: Vec<u8> = (0..36u8).map(|b| b.wrapping_mul(7)).collect();
    let p = plan_upload(12, 3, MemoryPlacement::DeviceLocal).unwrap();
    let mut device = vec![0xAAu8; p.data_size as usize];
    copy_region(&items, &mut device, &p.copy);
    let mut readback = vec![0u8; p.data_size as usize];
    copy_region(&device, &mut readback, &CopyRegion { src_offset: 0, dst_offset: 0, size: p.data_size });
    assert_eq!(readback, items);
}

#[test]
fn single_item_round_trip() {
    let items = vec![1u8, 2, 3, 4];
    let p = plan_upload(4, 1, MemoryPlacement::DeviceLocal).unwrap();
    let mut device = vec![9u8; 4];
    copy_region(&items, &mut device, &p.copy);
    assert_eq!(device, items);
}

#[test]
fn copy_with_offsets_touches_only_its_range() {
    let src = vec![1u8, 2, 3, 4, 5];
    let mut dst = vec![0u8; 6];
    copy_region(&src, &mut dst, &CopyRegion { src_offset: 1, dst_offset: 3, size: 2 });
    assert_eq!(dst, vec![0, 0, 0, 2, 3, 0]);
}
