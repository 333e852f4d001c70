use cubulous::descriptor::{
    ray_tracing_pool, raster_descriptor_writes, raster_pool, DescriptorKind, DescriptorWrite, PoolSize,
    RasterFrameResources, RtDescriptorBindings, RtFrameResources,
};

fn frame(i: u64) -> RtFrameResources {
    RtFrameResources { canvas_view: 10 + i, tlas: 20 + i, uniform_buffer: 30 + i, uniform_range: 128 }
}

#[test]
fn ray_tracing_pool_sized_per_frame() {
    let p = ray_tracing_pool(2).unwrap();
    assert_eq!(p.max_sets, 2);
    assert_eq!(
        p.sizes,
        vec![
            PoolSize { kind: DescriptorKind::StorageImage, count: 2 },
            PoolSize { kind: DescriptorKind::AccelerationStructure, count: 2 },
            PoolSize { kind: DescriptorKind::UniformBuffer, count: 2 },
        ]
    );
    assert!(ray_tracing_pool(u32::MAX as usize + 1).is_none());
}

#[test]
fn raster_pool_sized_per_frame() {
    let p = raster_pool(3).unwrap();
    assert_eq!(p.max_sets, 3);
    assert_eq!(
        p.sizes,
        vec![
            PoolSize { kind: DescriptorKind::UniformBuffer, count: 3 },
            PoolSize { kind: DescriptorKind::CombinedImageSampler, count: 3 },
        ]
    );
}

#[test]
fn every_binding_of_every_frame_is_written() {
    let (b, writes) = RtDescriptorBindings::new(vec![frame(0), frame(1)]);
    assert_eq!(b.frames().len(), 2);
    assert_eq!(writes.len(), 6);
    assert_eq!(
        writes[4],
        DescriptorWrite { set: 1, binding: 1, kind: DescriptorKind::AccelerationStructure, resource: 21, sampler: 0, range: 0 }
    );
    assert_eq!(
        writes[2],
        DescriptorWrite { set: 0, binding: 2, kind: DescriptorKind::UniformBuffer, resource: 30, sampler: 0, range: 128 }
    );
    assert_eq!(
        writes[3],
        DescriptorWrite { set: 1, binding: 0, kind: DescriptorKind::StorageImage, resource: 11, sampler: 0, range: 0 }
    );
}

#[test]
fn canvas_rebind_rewrites_every_set() {
    let (mut b, _) = RtDescriptorBindings::new(vec![frame(0), frame(1)]);
    let writes = b.rebind_canvas(&vec![77, 78]);
    assert_eq!(
        writes,
        vec![
            DescriptorWrite { set: 0, binding: 0, kind: DescriptorKind::StorageImage, resource: 77, sampler: 0, range: 0 },
            DescriptorWrite { set: 1, binding: 0, kind: DescriptorKind::StorageImage, resource: 78, sampler: 0, range: 0 },
        ]
    );
    assert_eq!(b.frames()[0], RtFrameResources { canvas_view: 77, ..frame(0) });
    assert_eq!(b.frames()[1], RtFrameResources { canvas_view: 78, ..frame(1) });
}

#[test]
fn raster_sets_bind_uniforms_and_texture() {
    let f = RasterFrameResources { uniform_buffer: 5, uniform_range: 192, sampler: 6, texture_view: 7 };
    let writes = raster_descriptor_writes(&vec![f, f]);
    assert_eq!(writes.len(), 4);
    assert_eq!(
        writes[3],
        DescriptorWrite { set: 1, binding: 1, kind: DescriptorKind::CombinedImageSampler, resource: 7, sampler: 6, range: 0 }
    );
    assert_eq!(
        writes[0],
        DescriptorWrite { set: 0, binding: 0, kind: DescriptorKind::UniformBuffer, resource: 5, sampler: 0, range: 192 }
    );
}
