use vstd::prelude::*;
use vstd::arithmetic::div_mod::lemma_fundamental_div_mod_converse;
use crate::align::{align_up, lemma_align_up, checked_align_u64};

verus! {

/// The device's shader-group handle properties.
#[derive(Clone, Copy, PartialEq, Eq, Debug, Structural)]
pub struct RtProperties {
    pub handle_size: u32,
    pub handle_alignment: u32,
    pub base_alignment: u32,
}

/// Number of shader groups per region; the ray-generation region always holds one.
#[derive(Clone, Copy, PartialEq, Eq, Debug, Structural)]
pub struct GroupCounts {
    pub hit: u32,
    pub miss: u32,
    pub callable: u32,
}

/// One region of the table: byte offset from the start of the buffer, stride
/// between consecutive handles, and size. An empty region is all zero.
#[derive(Clone, Copy, PartialEq, Eq, Debug, Structural)]
pub struct SbtRegion {
    pub offset: u64,
    pub stride: u64,
    pub size: u64,
}

/// Layout of the four contiguous regions (raygen, hit, miss, callable).
#[derive(Clone, Copy, PartialEq, Eq, Debug, Structural)]
pub struct SbtLayout {
    pub handle_stride: u64,
    pub raygen: SbtRegion,
    pub hit: SbtRegion,
    pub miss: SbtRegion,
    pub callable: SbtRegion,
    pub total_size: u64,
}

#[derive(Clone, Copy, PartialEq, Eq, Debug, Structural)]
pub enum SbtError {
    /// An alignment reported by the device is zero.
    ZeroAlignment,
    /// The table does not fit in the address space.
    TooLarge,
    /// Fewer handle bytes were fetched than the groups need.
    HandleDataTooShort,
}

/// Distance between consecutive handles inside the hit, miss and callable regions.
pub open spec fn handle_stride(p: RtProperties) -> int {
    align_up(p.handle_size as int, p.handle_alignment as int)
}

/// Size of a region holding `n` groups.
pub open spec fn region_size(p: RtProperties, n: int) -> int {
    align_up(handle_stride(p) * n, p.base_alignment as int)
}

pub open spec fn group_total(c: GroupCounts) -> int {
    1 + c.hit + c.miss + c.callable
}

pub open spec fn hit_offset(p: RtProperties) -> int {
    region_size(p, 1)
}

pub open spec fn miss_offset(p: RtProperties, c: GroupCounts) -> int {
    region_size(p, 1) + region_size(p, c.hit as int)
}

pub open spec fn callable_offset(p: RtProperties, c: GroupCounts) -> int {
    region_size(p, 1) + region_size(p, c.hit as int) + region_size(p, c.miss as int)
}

pub open spec fn sbt_size(p: RtProperties, c: GroupCounts) -> int {
    callable_offset(p, c) + region_size(p, c.callable as int)
}

/// A region of `n` groups at `offset` with handle stride `stride`; empty when `n == 0`.
pub open spec fn region_is(r: SbtRegion, p: RtProperties, n: int, offset: int, stride: int) -> bool {
    if n == 0 {
        r == SbtRegion { offset: 0, stride: 0, size: 0 }
    } else {
        r.offset == offset && r.stride == stride && r.size == region_size(p, n)
    }
}

/// `l` is the layout of a table for properties `p` and group counts `c`.
pub open spec fn is_layout(l: SbtLayout, p: RtProperties, c: GroupCounts) -> bool {
    &&& l.handle_stride == handle_stride(p)
    &&& l.raygen == SbtRegion { offset: 0, stride: region_size(p, 1) as u64, size: region_size(p, 1) as u64 }
    &&& region_is(l.hit, p, c.hit as int, hit_offset(p), handle_stride(p))
    &&& region_is(l.miss, p, c.miss as int, miss_offset(p, c), handle_stride(p))
    &&& region_is(l.callable, p, c.callable as int, callable_offset(p, c), handle_stride(p))
    &&& l.total_size == sbt_size(p, c)
}

proof fn lemma_region_size(p: RtProperties, n: int)
    requires
        p.handle_alignment > 0,
        p.base_alignment > 0,
        n >= 0,
    ensures
        handle_stride(p) >= p.handle_size,
        handle_stride(p) * n <= region_size(p, n),
        region_size(p, n) >= 0,
        n == 0 ==> region_size(p, n) == 0,
        n >= 1 ==> region_size(p, n) >= handle_stride(p),
{
    lemma_align_up(p.handle_size as int, p.handle_alignment as int);
    let s = handle_stride(p);
    assert(s * n >= 0) by (nonlinear_arith)
        requires
            s >= 0,
            n >= 0,
    ;
    assert(n >= 1 ==> s * n >= s) by (nonlinear_arith)
        requires
            s >= 0,
    ;
    lemma_align_up(s * n, p.base_alignment as int);
}

/// Every region of a laid-out table starts on the base alignment and is a
/// whole number of base-alignment units; the handle stride is a multiple of
/// the handle alignment and holds a handle; each region holds its groups'
/// slots; and the ray-generation stride equals its region size.
pub proof fn lemma_sbt_alignment(l: SbtLayout, p: RtProperties, c: GroupCounts)
    requires
        p.handle_alignment > 0,
        p.base_alignment > 0,
        is_layout(l, p, c),
    ensures
        (l.handle_stride as int) % (p.handle_alignment as int) == 0,
        (l.handle_stride as int) >= p.handle_size as int,
        (l.raygen.stride as int) == (l.raygen.size as int),
        (l.raygen.size as int) % (p.base_alignment as int) == 0,
        (l.hit.offset as int) % (p.base_alignment as int) == 0 && (l.hit.size as int) % (p.base_alignment as int) == 0,
        (l.miss.offset as int) % (p.base_alignment as int) == 0 && (l.miss.size as int) % (p.base_alignment as int) == 0,
        (l.callable.offset as int) % (p.base_alignment as int) == 0 && (l.callable.size as int) % (p.base_alignment as int)
            == 0,
        (l.hit.stride as int) * (c.hit as int) <= (l.hit.size as int),
        (l.miss.stride as int) * (c.miss as int) <= (l.miss.size as int),
        (l.callable.stride as int) * (c.callable as int) <= (l.callable.size as int),
        (l.total_size as int) % (p.base_alignment as int) == 0,
{
    let b = p.base_alignment as int;
    lemma_align_up(p.handle_size as int, p.handle_alignment as int);
    lemma_region_size(p, 1);
    lemma_region_size(p, c.hit as int);
    lemma_region_size(p, c.miss as int);
    lemma_region_size(p, c.callable as int);
    let s = handle_stride(p);
    assert(s * 1 >= 0 && s * (c.hit as int) >= 0 && s * (c.miss as int) >= 0 && s * (c.callable as int) >= 0)
        by (nonlinear_arith)
        requires
            s >= 0,
    ;
    lemma_align_up(s * 1, b);
    lemma_align_up(s * (c.hit as int), b);
    lemma_align_up(s * (c.miss as int), b);
    lemma_align_up(s * (c.callable as int), b);
    let r1 = region_size(p, 1);
    let rh = region_size(p, c.hit as int);
    let rm = region_size(p, c.miss as int);
    let rc = region_size(p, c.callable as int);
    lemma_sum_aligned(r1, rh, b);
    lemma_sum_aligned(r1 + rh, rm, b);
    lemma_sum_aligned(r1 + rh + rm, rc, b);
    assert(s * (c.hit as int) == (c.hit as int) * s && s * (c.miss as int) == (c.miss as int) * s
        && s * (c.callable as int) == (c.callable as int) * s) by (nonlinear_arith);
}

proof fn lemma_sum_aligned(x: int, y: int, b: int)
    requires
        b > 0,
        x % b == 0,
        y % b == 0,
    ensures
        (x + y) % b == 0,
{
    vstd::arithmetic::div_mod::lemma_add_mod_noop(x, y, b);
    vstd::arithmetic::div_mod::lemma_small_mod(0, b as nat);
}

/// Bytes of a region holding `n` groups, or `None` if that overflows.
fn region_bytes(p: &RtProperties, stride: u64, n: u32) -> (r: Option<u64>)
    requires
        p.handle_alignment > 0,
        p.base_alignment > 0,
        stride == handle_stride(*p),
    ensures
        region_size(*p, n as int) <= u64::MAX ==> r == Some(region_size(*p, n as int) as u64),
        region_size(*p, n as int) > u64::MAX ==> r is None,
{
    proof {
        lemma_region_size(*p, n as int);
    }
    match stride.checked_mul(n as u64) {
        Some(raw) => checked_align_u64(raw, p.base_alignment as u64),
        None => None,
    }
}

fn make_region(offset: u64, stride: u64, size: u64, n: u32) -> (r: SbtRegion)
    ensures
        n == 0 ==> r == (SbtRegion { offset: 0, stride: 0, size: 0 }),
        n != 0 ==> r == (SbtRegion { offset, stride, size }),
{
    if n == 0 {
        SbtRegion { offset: 0, stride: 0, size: 0 }
    } else {
        SbtRegion { offset, stride, size }
    }
}

/// Computes the region layout of a shader binding table.
pub fn compute_sbt_layout(p: &RtProperties, c: &GroupCounts) -> (r: Result<SbtLayout, SbtError>)
    ensures
        (p.handle_alignment == 0 || p.base_alignment == 0) ==> r == Err::<SbtLayout, SbtError>(
            SbtError::ZeroAlignment,
        ),
        p.handle_alignment > 0 && p.base_alignment > 0 && sbt_size(*p, *c) > u64::MAX ==> r
            == Err::<SbtLayout, SbtError>(SbtError::TooLarge),
        p.handle_alignment > 0 && p.base_alignment > 0 && sbt_size(*p, *c) <= u64::MAX ==> (r
            matches Ok(l) && is_layout(l, *p, *c)),
{
    if p.handle_alignment == 0 || p.base_alignment == 0 {
        return Err(SbtError::ZeroAlignment);
    }
    proof {
        lemma_region_size(*p, 1);
        lemma_region_size(*p, c.hit as int);
        lemma_region_size(*p, c.miss as int);
        lemma_region_size(*p, c.callable as int);
    }
    let stride = match checked_align_u64(p.handle_size as u64, p.handle_alignment as u64) {
        Some(s) => s,
        None => return Err(SbtError::TooLarge),
    };
    let rg = match region_bytes(p, stride, 1) {
        Some(s) => s,
        None => return Err(SbtError::TooLarge),
    };
    let hit = match region_bytes(p, stride, c.hit) {
        Some(s) => s,
        None => return Err(SbtError::TooLarge),
    };
    let miss = match region_bytes(p, stride, c.miss) {
        Some(s) => s,
        None => return Err(SbtError::TooLarge),
    };
    let call = match region_bytes(p, stride, c.callable) {
        Some(s) => s,
        None => return Err(SbtError::TooLarge),
    };
    if hit > u64::MAX - rg {
        return Err(SbtError::TooLarge);
    }
    let miss_off = rg + hit;
    if miss > u64::MAX - miss_off {
        return Err(SbtError::TooLarge);
    }
    let call_off = miss_off + miss;
    if call > u64::MAX - call_off {
        return Err(SbtError::TooLarge);
    }
    let total = call_off + call;
    Ok(
        SbtLayout {
            handle_stride: stride,
            raygen: SbtRegion { offset: 0, stride: rg, size: rg },
            hit: make_region(rg, stride, hit, c.hit),
            miss: make_region(miss_off, stride, miss, c.miss),
            callable: make_region(call_off, stride, call, c.callable),
            total_size: total,
        },
    )
}

/// Byte `i` of a region of `n` slots of `stride` bytes at `off`, whose slots
/// hold the handles of groups `first ..`: the handle's bytes, then zero padding.
pub open spec fn region_byte(
    handles: Seq<u8>,
    hs: int,
    first: int,
    n: int,
    off: int,
    stride: int,
    i: int,
) -> u8 {
    let rel = i - off;
    if 0 <= rel < n * stride && rel % stride < hs {
        handles[(first + rel / stride) * hs + rel % stride]
    } else {
        0
    }
}

/// Byte `i` of the table for properties `p`, counts `c` and the fetched
/// handle bytes, which hold one `handle_size` block per group in the order
/// raygen, hit, miss, callable.
pub open spec fn sbt_byte(p: RtProperties, c: GroupCounts, handles: Seq<u8>, i: int) -> u8 {
    let hs = p.handle_size as int;
    let st = handle_stride(p);
    if i < hit_offset(p) {
        region_byte(handles, hs, 0, 1, 0, region_size(p, 1), i)
    } else if i < miss_offset(p, c) {
        region_byte(handles, hs, 1, c.hit as int, hit_offset(p), st, i)
    } else if i < callable_offset(p, c) {
        region_byte(handles, hs, 1 + c.hit, c.miss as int, miss_offset(p, c), st, i)
    } else {
        region_byte(handles, hs, 1 + c.hit + c.miss, c.callable as int, callable_offset(p, c), st, i)
    }
}

pub open spec fn sbt_image(p: RtProperties, c: GroupCounts, handles: Seq<u8>) -> Seq<u8> {
    Seq::new(sbt_size(p, c) as nat, |i: int| sbt_byte(p, c, handles, i))
}

proof fn lemma_slot_position(j: int, stride: int, w: int)
    requires
        j >= 0,
        0 <= w < stride,
    ensures
        (j * stride + w) / stride == j,
        (j * stride + w) % stride == w,
{
    lemma_fundamental_div_mod_converse(j * stride + w, stride, j, w);
}

/// Copies the handles of groups `first .. first + n` into consecutive slots of
/// `stride` bytes starting at `off`; the slots must hold zeros beforehand.
fn copy_slots(
    buf: &mut Vec<u8>,
    handles: &Vec<u8>,
    hs: usize,
    first: usize,
    n: usize,
    off: usize,
    stride: usize,
)
    requires
        hs <= stride,
        first + n <= usize::MAX,
        off + n * stride <= old(buf)@.len(),
        (first + n) * hs <= handles@.len(),
        forall|i: int| off <= i < off + n * stride ==> old(buf)@[i] == 0,
    ensures
        final(buf)@.len() == old(buf)@.len(),
        forall|i: int|
            0 <= i < final(buf)@.len() && !(off <= i < off + n * stride) ==> final(buf)@[i]
                == old(buf)@[i],
        forall|i: int|
            off <= i < off + n * stride ==> final(buf)@[i] == region_byte(
                handles@,
                hs as int,
                first as int,
                n as int,
                off as int,
                stride as int,
                i,
            ),
{
    let ghost end = off + n * stride;
    let len = buf.len();
    let hlen = handles.len();
    let mut j: usize = 0;
    while j < n
        invariant
            j <= n,
            hs <= stride,
            first + n <= usize::MAX,
            end == off + n * stride,
            end <= buf@.len(),
            buf@.len() == old(buf)@.len(),
            buf@.len() == len,
            handles@.len() == hlen,
            (first + n) * hs <= handles@.len(),
            forall|i: int|
                0 <= i < buf@.len() && !(off <= i < end) ==> buf@[i] == old(buf)@[i],
            forall|i: int|
                off <= i < off + j * stride ==> buf@[i] == region_byte(
                    handles@,
                    hs as int,
                    first as int,
                    n as int,
                    off as int,
                    stride as int,
                    i,
                ),
            forall|i: int| off + j * stride <= i < end ==> buf@[i] == 0,
        decreases n - j,
    {
        assert((j + 1) * stride <= n * stride && (j + 1) * stride == j * stride + stride)
            by (nonlinear_arith)
            requires
                j < n,
                stride >= 0,
        ;
        assert((first + j + 1) * hs <= (first + n) * hs && (first + j + 1) * hs == (first + j)
            * hs + hs) by (nonlinear_arith)
            requires
                j < n,
                hs >= 0,
        ;
        let base = off + j * stride;
        let src = (first + j) * hs;
        let mut b: usize = 0;
        while b < hs
            invariant
                b <= hs,
                hs <= stride,
                base == off + j * stride,
                base + stride <= end,
                src == (first + j) * hs,
                src + hs <= handles@.len(),
                end <= buf@.len(),
                buf@.len() == old(buf)@.len(),
                buf@.len() == len,
                handles@.len() == hlen,
                forall|i: int|
                    0 <= i < buf@.len() && !(off <= i < end) ==> buf@[i] == old(buf)@[i],
                forall|i: int|
                    off <= i < base ==> buf@[i] == region_byte(
                        handles@,
                        hs as int,
                        first as int,
                        n as int,
                        off as int,
                        stride as int,
                        i,
                    ),
                forall|i: int| base <= i < base + b ==> buf@[i] == handles@[src + (i - base)],
                forall|i: int| base + b <= i < end ==> buf@[i] == 0,
            decreases hs - b,
        {
            buf.set(base + b, handles[src + b]);
            b = b + 1;
        }
        assert forall|i: int| base <= i < base + stride implies buf@[i] == region_byte(
            handles@,
            hs as int,
            first as int,
            n as int,
            off as int,
            stride as int,
            i,
        ) by {
            let w = i - base;
            lemma_slot_position(j as int, stride as int, w);
            assert(i - off == j * stride + w);
        }
        j = j + 1;
    }
}

/// The filled shader binding table: its layout and the bytes to place at the
/// start of its buffer.
pub struct ShaderBindingTable {
    pub layout: SbtLayout,
    pub bytes: Vec<u8>,
}

/// Lays out the table and copies each group's handle into its slot; the gap
/// after each handle up to the region's stride is zero padding.
pub fn build_shader_binding_table(p: &RtProperties, c: &GroupCounts, handles: &Vec<u8>) -> (r:
    Result<ShaderBindingTable, SbtError>)
    ensures
        (p.handle_alignment == 0 || p.base_alignment == 0) ==> r matches Err(
            SbtError::ZeroAlignment,
        ),
        p.handle_alignment > 0 && p.base_alignment > 0 && sbt_size(*p, *c) > usize::MAX ==> r matches Err(
            SbtError::TooLarge,
        ),
        p.handle_alignment > 0 && p.base_alignment > 0 && sbt_size(*p, *c) <= usize::MAX
            && handles@.len() < p.handle_size * group_total(*c) ==> r matches Err(
            SbtError::HandleDataTooShort,
        ),
        p.handle_alignment > 0 && p.base_alignment > 0 && sbt_size(*p, *c) <= usize::MAX
            && handles@.len() >= p.handle_size * group_total(*c) ==> (r matches Ok(t) && is_layout(
            t.layout,
            *p,
            *c,
        ) && t.bytes@ == sbt_image(*p, *c, handles@)),
{
    let layout = match compute_sbt_layout(p, c) {
        Ok(l) => l,
        Err(e) => return Err(e),
    };
    if layout.total_size > usize::MAX as u64 {
        return Err(SbtError::TooLarge);
    }
    let groups: u128 = 1u128 + c.hit as u128 + c.miss as u128 + c.callable as u128;
    assert(p.handle_size as u128 * groups <= 0x1_0000_0000u128 * 0x4_0000_0000u128)
        by (nonlinear_arith)
        requires
            p.handle_size <= u32::MAX,
            groups <= 0x4_0000_0000u128,
    ;
    let needed: u128 = p.handle_size as u128 * groups;
    if (handles.len() as u128) < needed {
        return Err(SbtError::HandleDataTooShort);
    }
    proof {
        lemma_region_size(*p, 1);
        lemma_region_size(*p, c.hit as int);
        lemma_region_size(*p, c.miss as int);
        lemma_region_size(*p, c.callable as int);
    }
    let total = layout.total_size as usize;
    let mut bytes: Vec<u8> = Vec::new();
    let mut i: usize = 0;
    while i < total
        invariant
            i <= total,
            bytes@ == Seq::new(i as nat, |k: int| 0u8),
        decreases total - i,
    {
        bytes.push(0);
        i = i + 1;
    }
    let hs = p.handle_size as usize;
    if hs == 0 {
        proof {
            lemma_align_up(0, p.handle_alignment as int);
            lemma_align_up(0, p.base_alignment as int);
            assert(handle_stride(*p) == 0);
            let z = handle_stride(*p);
            assert(z * (c.hit as int) == 0 && z * (c.miss as int) == 0 && z * (c.callable as int)
                == 0) by (nonlinear_arith)
                requires
                    z == 0,
            ;
            assert(region_size(*p, 1) == align_up(0, p.base_alignment as int));
            assert(region_size(*p, c.hit as int) == align_up(0, p.base_alignment as int));
            assert(region_size(*p, c.miss as int) == align_up(0, p.base_alignment as int));
            assert(region_size(*p, c.callable as int) == align_up(0, p.base_alignment as int));
            assert(sbt_size(*p, *c) == 0);
            assert(bytes@ =~= sbt_image(*p, *c, handles@));
        }
        return Ok(ShaderBindingTable { layout, bytes });
    }
    let st = layout.handle_stride as usize;
    let rg = layout.raygen.size as usize;
    let hit_off = rg;
    let miss_off = hit_off + layout.hit.size as usize;
    let call_off = miss_off + layout.miss.size as usize;
    let ghost zeros = bytes@;
    proof {
        let h = c.hit as int;
        let m = c.miss as int;
        let k = c.callable as int;
        assert(layout.hit.size == region_size(*p, h));
        assert(layout.miss.size == region_size(*p, m));
        assert(layout.callable.size == region_size(*p, k));
        assert(h * st <= region_size(*p, h) && m * st <= region_size(*p, m) && k * st
            <= region_size(*p, k)) by (nonlinear_arith)
            requires
                st * h <= region_size(*p, h),
                st * m <= region_size(*p, m),
                st * k <= region_size(*p, k),
        ;
        assert(1 + h + m + k <= needed) by (nonlinear_arith)
            requires
                needed == hs * (1 + h + m + k),
                h >= 0,
                m >= 0,
                k >= 0,
                hs >= 1,
        ;
        assert(hs <= needed && (1 + h) * hs <= needed && (1 + h + m) * hs <= needed && (1 + h + m + k) * hs
            == needed) by (nonlinear_arith)
            requires
                needed == hs * (1 + h + m + k),
                h >= 0,
                m >= 0,
                k >= 0,
                hs >= 0,
        ;
    }
    copy_slots(&mut bytes, handles, hs, 0, 1, 0, rg);
    let ghost b1 = bytes@;
    copy_slots(&mut bytes, handles, hs, 1, c.hit as usize, hit_off, st);
    let ghost b2 = bytes@;
    copy_slots(&mut bytes, handles, hs, 1 + c.hit as usize, c.miss as usize, miss_off, st);
    let ghost b3 = bytes@;
    copy_slots(
        &mut bytes,
        handles,
        hs,
        1 + c.hit as usize + c.miss as usize,
        c.callable as usize,
        call_off,
        st,
    );
    proof {
        let img = sbt_image(*p, *c, handles@);
        assert forall|i: int| 0 <= i < total implies bytes@[i] == img[i] by {
            let h = c.hit as int;
            let m = c.miss as int;
            let k = c.callable as int;
            if i < hit_off {
            } else if i < miss_off {
                if i >= hit_off + h * st {
                    assert(b1[i] == 0);
                }
            } else if i < call_off {
                if i >= miss_off + m * st {
                    assert(b2[i] == 0);
                }
            } else {
                if i >= call_off + k * st {
                    assert(b3[i] == 0);
                }
            }
        }
        assert(bytes@ =~= img);
    }
    Ok(ShaderBindingTable { layout, bytes })
}

} // verus!
