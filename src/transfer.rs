use vstd::prelude::*;

verus! {

/// Where the destination buffer of an upload lives.
#[derive(Clone, Copy, PartialEq, Eq, Debug, Structural)]
pub enum MemoryPlacement {
    /// Device-local memory, filled through a host-visible staging buffer.
    DeviceLocal,
    /// Host-visible, host-coherent memory, written directly.
    HostVisible,
}

/// One region of a buffer-to-buffer copy command.
#[derive(Clone, Copy, PartialEq, Eq, Debug, Structural)]
pub struct CopyRegion {
    pub src_offset: u64,
    pub dst_offset: u64,
    pub size: u64,
}

/// How an array of items is brought into a buffer.
#[derive(Clone, Copy, PartialEq, Eq, Debug, Structural)]
pub struct UploadPlan {
    /// Bytes of the mapped buffer that the items fill, and of the destination.
    pub data_size: u64,
    /// Number of items the destination holds.
    pub item_count: usize,
    /// Whether a staging buffer and a one-shot copy are used.
    pub staged: bool,
    /// The copy from the staging buffer to the destination.
    pub copy: CopyRegion,
}

#[derive(Clone, Copy, PartialEq, Eq, Debug, Structural)]
pub enum TransferError {
    /// There is nothing to upload.
    Empty,
    /// The byte size does not fit in a device size.
    TooLarge,
}

pub open spec fn upload_plan_spec(item_size: usize, item_count: usize, placement: MemoryPlacement) -> UploadPlan {
    let size = (item_size * item_count) as u64;
    UploadPlan {
        data_size: size,
        item_count,
        staged: placement == MemoryPlacement::DeviceLocal,
        copy: CopyRegion { src_offset: 0, dst_offset: 0, size },
    }
}

/// Plans the upload of `item_count` items of `item_size` bytes each.
pub fn plan_upload(item_size: usize, item_count: usize, placement: MemoryPlacement) -> (r: Result<
    UploadPlan,
    TransferError,
>)
    ensures
        item_size * item_count == 0 ==> r == Err::<UploadPlan, TransferError>(TransferError::Empty),
        item_size * item_count > u64::MAX ==> r == Err::<UploadPlan, TransferError>(
            TransferError::TooLarge,
        ),
        0 < item_size * item_count <= u64::MAX ==> r == Ok::<UploadPlan, TransferError>(
            upload_plan_spec(item_size, item_count, placement),
        ),
{
    if item_size == 0 || item_count == 0 {
        assert(item_size * item_count == 0) by (nonlinear_arith)
            requires
                item_size == 0 || item_count == 0,
        ;
        return Err(TransferError::Empty);
    }
    assert(item_size * item_count > 0) by (nonlinear_arith)
        requires
            item_size > 0,
            item_count > 0,
    ;
    let size = match (item_size as u64).checked_mul(item_count as u64) {
        Some(s) => s,
        None => return Err(TransferError::TooLarge),
    };
    Ok(
        UploadPlan {
            data_size: size,
            item_count,
            staged: match placement {
                MemoryPlacement::DeviceLocal => true,
                MemoryPlacement::HostVisible => false,
            },
            copy: CopyRegion { src_offset: 0, dst_offset: 0, size },
        },
    )
}

/// Contents of `dst` after copying `r` from `src`.
pub open spec fn apply_copy(src: Seq<u8>, dst: Seq<u8>, r: CopyRegion) -> Seq<u8> {
    Seq::new(
        dst.len(),
        |i: int|
            if r.dst_offset <= i < r.dst_offset + r.size {
                src[r.src_offset + (i - r.dst_offset)]
            } else {
                dst[i]
            },
    )
}

pub open spec fn copy_in_bounds(src_len: int, dst_len: int, r: CopyRegion) -> bool {
    r.src_offset + r.size <= src_len && r.dst_offset + r.size <= dst_len
}

/// Carries out a copy command on host-side byte images of two buffers.
pub fn copy_region(src: &Vec<u8>, dst: &mut Vec<u8>, r: &CopyRegion)
    requires
        copy_in_bounds(src@.len() as int, old(dst)@.len() as int, *r),
    ensures
        final(dst)@ == apply_copy(src@, old(dst)@, *r),
{
    let dlen = dst.len();
    let slen = src.len();
    assert(r.size <= dlen && r.src_offset <= slen && r.dst_offset <= dlen);
    let n = r.size as usize;
    let so = r.src_offset as usize;
    let d = r.dst_offset as usize;
    let mut k: usize = 0;
    while k < n
        invariant
            k <= n,
            n == r.size,
            so == r.src_offset,
            d == r.dst_offset,
            so + n <= src@.len(),
            d + n <= dst@.len(),
            dst@.len() == dlen,
            src@.len() == slen,
            dst@.len() == old(dst)@.len(),
            forall|i: int|
                0 <= i < dst@.len() ==> #[trigger] dst@[i] == (if d <= i < d + k {
                    src@[so + (i - d)]
                } else {
                    old(dst)@[i]
                }),
        decreases n - k,
    {
        dst.set(d + k, src[so + k]);
        k = k + 1;
    }
    assert(dst@ =~= apply_copy(src@, old(dst)@, *r));
}

/// The copy that reads a destination back into a fresh staging buffer.
pub open spec fn readback_region(p: UploadPlan) -> CopyRegion {
    CopyRegion { src_offset: 0, dst_offset: 0, size: p.data_size }
}

/// Uploading the bytes of `item_count` items of `item_size` bytes through a
/// staging buffer, then copying the destination back into a second staging
/// buffer, gives back the uploaded bytes.
pub proof fn lemma_upload_round_trip(
    bytes: Seq<u8>,
    item_size: usize,
    item_count: usize,
    placement: MemoryPlacement,
    dst_initial: Seq<u8>,
    readback_initial: Seq<u8>,
)
    requires
        item_count >= 1,
        item_size >= 1,
        bytes.len() == item_size * item_count,
        item_size * item_count <= u64::MAX,
        dst_initial.len() == bytes.len(),
        readback_initial.len() == bytes.len(),
    ensures
        ({
            let p = upload_plan_spec(item_size, item_count, placement);
            let device = apply_copy(bytes, dst_initial, p.copy);
            copy_in_bounds(bytes.len() as int, dst_initial.len() as int, p.copy)
                && copy_in_bounds(device.len() as int, readback_initial.len() as int, readback_region(p))
                && apply_copy(device, readback_initial, readback_region(p)) == bytes
        }),
{
    let p = upload_plan_spec(item_size, item_count, placement);
    let device = apply_copy(bytes, dst_initial, p.copy);
    assert(device =~= bytes);
    assert(apply_copy(device, readback_initial, readback_region(p)) =~= bytes);
}

} // verus!
