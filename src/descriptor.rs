use vstd::prelude::*;

verus! {

#[derive(Clone, Copy, PartialEq, Eq, Debug, Structural)]
pub enum DescriptorKind {
    StorageImage,
    AccelerationStructure,
    UniformBuffer,
    CombinedImageSampler,
}

/// Room for `count` descriptors of one kind in a pool.
#[derive(Clone, Copy, PartialEq, Eq, Debug, Structural)]
pub struct PoolSize {
    pub kind: DescriptorKind,
    pub count: u32,
}

/// Sizing of a descriptor pool: `max_sets` sets, and room per kind.
#[derive(Clone, PartialEq, Eq, Debug)]
pub struct PoolPlan {
    pub max_sets: u32,
    pub sizes: Vec<PoolSize>,
}

/// One descriptor update: binding `binding` of the set of frame `set` is made
/// to reference `resource` (with `sampler` for a combined image sampler and
/// `range` bytes for a uniform buffer; both zero otherwise).
#[derive(Clone, Copy, PartialEq, Eq, Debug, Structural)]
pub struct DescriptorWrite {
    pub set: usize,
    pub binding: u32,
    pub kind: DescriptorKind,
    pub resource: u64,
    pub sampler: u64,
    pub range: u64,
}

/// What the ray-tracing set of one frame references: the canvas image view,
/// the top-level structure, and the frame's uniform buffer.
#[derive(Clone, Copy, PartialEq, Eq, Debug, Structural)]
pub struct RtFrameResources {
    pub canvas_view: u64,
    pub tlas: u64,
    pub uniform_buffer: u64,
    pub uniform_range: u64,
}

/// What the raster set of one frame references: the frame's uniform buffer,
/// and a sampler with the texture's image view.
#[derive(Clone, Copy, PartialEq, Eq, Debug, Structural)]
pub struct RasterFrameResources {
    pub uniform_buffer: u64,
    pub uniform_range: u64,
    pub sampler: u64,
    pub texture_view: u64,
}

pub open spec fn pool_spec(max_frames: usize, kinds: Seq<DescriptorKind>) -> (u32, Seq<PoolSize>) {
    (max_frames as u32, kinds.map_values(|k: DescriptorKind| PoolSize { kind: k, count: max_frames as u32 }))
}

pub open spec fn rt_kinds() -> Seq<DescriptorKind> {
    seq![DescriptorKind::StorageImage, DescriptorKind::AccelerationStructure, DescriptorKind::UniformBuffer]
}

pub open spec fn raster_kinds() -> Seq<DescriptorKind> {
    seq![DescriptorKind::UniformBuffer, DescriptorKind::CombinedImageSampler]
}

fn pool_for(max_frames: u32, kinds: &Vec<DescriptorKind>) -> (r: PoolPlan)
    ensures
        (r.max_sets, r.sizes@) == pool_spec(max_frames as usize, kinds@),
{
    let mut sizes: Vec<PoolSize> = Vec::new();
    let mut i: usize = 0;
    while i < kinds.len()
        invariant
            i <= kinds@.len(),
            sizes@ == kinds@.subrange(0, i as int).map_values(
                |k: DescriptorKind| PoolSize { kind: k, count: max_frames },
            ),
        decreases kinds.len() - i,
    {
        sizes.push(PoolSize { kind: kinds[i], count: max_frames });
        proof {
            assert(kinds@.subrange(0, i + 1) =~= kinds@.subrange(0, i as int).push(kinds@[i as int]));
        }
        i = i + 1;
    }
    proof {
        assert(kinds@.subrange(0, kinds@.len() as int) =~= kinds@);
    }
    PoolPlan { max_sets: max_frames, sizes }
}

/// Pool for the per-frame ray-tracing sets: one set per frame and, per frame,
/// one storage image, one acceleration structure and one uniform buffer.
/// `None` when the frame count does not fit a 32-bit count.
pub fn ray_tracing_pool(max_frames: usize) -> (r: Option<PoolPlan>)
    ensures
        max_frames > u32::MAX ==> r is None,
        max_frames <= u32::MAX ==> (r matches Some(p) && (p.max_sets, p.sizes@) == pool_spec(
            max_frames,
            rt_kinds(),
        )),
{
    if max_frames > u32::MAX as usize {
        return None;
    }
    let kinds = vec![DescriptorKind::StorageImage, DescriptorKind::AccelerationStructure, DescriptorKind::UniformBuffer];
    assert(kinds@ =~= rt_kinds());
    Some(pool_for(max_frames as u32, &kinds))
}

/// Pool for the per-frame raster sets: one set per frame and, per frame, one
/// uniform buffer and one combined image sampler.
pub fn raster_pool(max_frames: usize) -> (r: Option<PoolPlan>)
    ensures
        max_frames > u32::MAX ==> r is None,
        max_frames <= u32::MAX ==> (r matches Some(p) && (p.max_sets, p.sizes@) == pool_spec(
            max_frames,
            raster_kinds(),
        )),
{
    if max_frames > u32::MAX as usize {
        return None;
    }
    let kinds = vec![DescriptorKind::UniformBuffer, DescriptorKind::CombinedImageSampler];
    assert(kinds@ =~= raster_kinds());
    Some(pool_for(max_frames as u32, &kinds))
}

pub open spec fn canvas_write(set: usize, view: u64) -> DescriptorWrite {
    DescriptorWrite { set, binding: 0, kind: DescriptorKind::StorageImage, resource: view, sampler: 0, range: 0 }
}

/// The three writes of the ray-tracing set of frame `set`.
pub open spec fn rt_frame_writes(set: usize, f: RtFrameResources) -> Seq<DescriptorWrite> {
    seq![
        canvas_write(set, f.canvas_view),
        DescriptorWrite { set, binding: 1, kind: DescriptorKind::AccelerationStructure, resource: f.tlas, sampler: 0, range: 0 },
        DescriptorWrite { set, binding: 2, kind: DescriptorKind::UniformBuffer, resource: f.uniform_buffer, sampler: 0, range: f.uniform_range },
    ]
}

/// The two writes of the raster set of frame `set`.
pub open spec fn raster_frame_writes(set: usize, f: RasterFrameResources) -> Seq<DescriptorWrite> {
    seq![
        DescriptorWrite { set, binding: 0, kind: DescriptorKind::UniformBuffer, resource: f.uniform_buffer, sampler: 0, range: f.uniform_range },
        DescriptorWrite { set, binding: 1, kind: DescriptorKind::CombinedImageSampler, resource: f.texture_view, sampler: f.sampler, range: 0 },
    ]
}

/// Writes for every binding of every ray-tracing set, frame by frame.
pub open spec fn rt_writes(frames: Seq<RtFrameResources>) -> Seq<DescriptorWrite>
    decreases frames.len(),
{
    if frames.len() == 0 {
        Seq::empty()
    } else {
        rt_writes(frames.drop_last()) + rt_frame_writes((frames.len() - 1) as usize, frames.last())
    }
}

/// Writes for every binding of every raster set, frame by frame.
pub open spec fn raster_writes(frames: Seq<RasterFrameResources>) -> Seq<DescriptorWrite>
    decreases frames.len(),
{
    if frames.len() == 0 {
        Seq::empty()
    } else {
        raster_writes(frames.drop_last()) + raster_frame_writes(
            (frames.len() - 1) as usize,
            frames.last(),
        )
    }
}

/// Writes that bind each frame's canvas view to binding 0 of its set.
pub open spec fn canvas_writes(views: Seq<u64>) -> Seq<DescriptorWrite> {
    Seq::new(views.len(), |i: int| canvas_write(i as usize, views[i]))
}

/// The per-frame resources after every set is pointed at its frame's new canvas view.
pub open spec fn rebind_spec(frames: Seq<RtFrameResources>, views: Seq<u64>) -> Seq<RtFrameResources> {
    Seq::new(frames.len(), |i: int| RtFrameResources { canvas_view: views[i], ..frames[i] })
}

/// After the canvas is rebuilt and the sets rebound, no set references a
/// view of the previous canvas and every set references a view of the new
/// one, provided the two generations share no handle.
pub proof fn lemma_no_stale_canvas(frames: Seq<RtFrameResources>, old_views: Seq<u64>, new_views: Seq<u64>)
    requires
        new_views.len() == frames.len(),
        forall|h: u64| old_views.contains(h) ==> !new_views.contains(h),
    ensures
        forall|f: int|
            0 <= f < frames.len() ==> !old_views.contains(#[trigger] rebind_spec(frames, new_views)[f].canvas_view)
                && new_views.contains(rebind_spec(frames, new_views)[f].canvas_view),
{
    assert forall|f: int| 0 <= f < frames.len() implies !old_views.contains(
        #[trigger] rebind_spec(frames, new_views)[f].canvas_view,
    ) && new_views.contains(rebind_spec(frames, new_views)[f].canvas_view) by {
        assert(rebind_spec(frames, new_views)[f].canvas_view == new_views[f]);
        assert(new_views.contains(new_views[f]));
    }
}

/// All the writes that set up the raster sets.
pub fn raster_descriptor_writes(frames: &Vec<RasterFrameResources>) -> (r: Vec<DescriptorWrite>)
    ensures
        r@ == raster_writes(frames@),
{
    let mut out: Vec<DescriptorWrite> = Vec::new();
    let mut i: usize = 0;
    while i < frames.len()
        invariant
            i <= frames@.len(),
            out@ == raster_writes(frames@.subrange(0, i as int)),
        decreases frames.len() - i,
    {
        let f = frames[i];
        out.push(
            DescriptorWrite { set: i, binding: 0, kind: DescriptorKind::UniformBuffer, resource: f.uniform_buffer, sampler: 0, range: f.uniform_range },
        );
        out.push(
            DescriptorWrite { set: i, binding: 1, kind: DescriptorKind::CombinedImageSampler, resource: f.texture_view, sampler: f.sampler, range: 0 },
        );
        proof {
            let next = frames@.subrange(0, i + 1);
            assert(next.drop_last() =~= frames@.subrange(0, i as int));
            assert(out@ =~= raster_writes(next));
        }
        i = i + 1;
    }
    proof {
        assert(frames@.subrange(0, frames@.len() as int) =~= frames@);
    }
    out
}

/// The per-frame ray-tracing sets and what each one references.
pub struct RtDescriptorBindings {
    frames: Vec<RtFrameResources>,
}

impl View for RtDescriptorBindings {
    type V = Seq<RtFrameResources>;

    closed spec fn view(&self) -> Seq<RtFrameResources> {
        self.frames@
    }
}

impl RtDescriptorBindings {
    /// Binds every per-frame set; returns the bindings and the writes that make them.
    pub fn new(frames: Vec<RtFrameResources>) -> (r: (RtDescriptorBindings, Vec<DescriptorWrite>))
        ensures
            r.0@ == frames@,
            r.1@ == rt_writes(frames@),
    {
        let mut out: Vec<DescriptorWrite> = Vec::new();
        let mut i: usize = 0;
        while i < frames.len()
            invariant
                i <= frames@.len(),
                out@ == rt_writes(frames@.subrange(0, i as int)),
            decreases frames.len() - i,
        {
            let f = frames[i];
            out.push(
                DescriptorWrite { set: i, binding: 0, kind: DescriptorKind::StorageImage, resource: f.canvas_view, sampler: 0, range: 0 },
            );
            out.push(
                DescriptorWrite { set: i, binding: 1, kind: DescriptorKind::AccelerationStructure, resource: f.tlas, sampler: 0, range: 0 },
            );
            out.push(
                DescriptorWrite { set: i, binding: 2, kind: DescriptorKind::UniformBuffer, resource: f.uniform_buffer, sampler: 0, range: f.uniform_range },
            );
            proof {
                let next = frames@.subrange(0, i + 1);
                assert(next.drop_last() =~= frames@.subrange(0, i as int));
                assert(out@ =~= rt_writes(next));
            }
            i = i + 1;
        }
        proof {
            assert(frames@.subrange(0, frames@.len() as int) =~= frames@);
        }
        (RtDescriptorBindings { frames }, out)
    }

    pub fn frames(&self) -> (r: &Vec<RtFrameResources>)
        ensures
            r@ == self@,
    {
        &self.frames
    }

    /// After the canvas was rebuilt: points every set at its frame's new
    /// canvas view, leaving the other bindings as they were, and returns one
    /// write per set. The number of views must match the number of sets.
    pub fn rebind_canvas(&mut self, views: &Vec<u64>) -> (r: Vec<DescriptorWrite>)
        requires
            views@.len() == old(self)@.len(),
        ensures
            final(self)@ == rebind_spec(old(self)@, views@),
            r@ == canvas_writes(views@),
    {
        let mut out: Vec<DescriptorWrite> = Vec::new();
        let mut i: usize = 0;
        while i < views.len()
            invariant
                i <= views@.len(),
                views@.len() == self.frames@.len(),
                self.frames@.len() == old(self)@.len(),
                forall|j: int|
                    0 <= j < i ==> #[trigger] self.frames@[j] == (RtFrameResources {
                        canvas_view: views@[j],
                        ..old(self)@[j]
                    }),
                forall|j: int| i <= j < self.frames@.len() ==> #[trigger] self.frames@[j] == old(self)@[j],
                out@ == canvas_writes(views@.subrange(0, i as int)),
            decreases views.len() - i,
        {
            let mut f = self.frames[i];
            f.canvas_view = views[i];
            self.frames.set(i, f);
            out.push(
                DescriptorWrite { set: i, binding: 0, kind: DescriptorKind::StorageImage, resource: views[i], sampler: 0, range: 0 },
            );
            proof {
                assert(out@ =~= canvas_writes(views@.subrange(0, i + 1)));
            }
            i = i + 1;
        }
        proof {
            assert(views@.subrange(0, views@.len() as int) =~= views@);
            assert(self.frames@ =~= rebind_spec(old(self)@, views@));
        }
        out
    }
}

} // verus!
