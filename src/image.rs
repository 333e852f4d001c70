use vstd::prelude::*;
use vstd::arithmetic::power2::{pow2, lemma_pow2_unfold, lemma2_to64};

verus! {

/// Format value of 32-bit float depth with 8-bit stencil.
pub const FORMAT_D32_SFLOAT_S8_UINT: i32 = 130;

/// Format value of 24-bit normalized depth with 8-bit stencil.
pub const FORMAT_D24_UNORM_S8_UINT: i32 = 129;

/// `floor(log2(n))`, taken as 0 for `n <= 1`.
pub open spec fn log2_floor(n: nat) -> nat
    decreases n,
{
    if n <= 1 {
        0
    } else {
        1 + log2_floor(n / 2)
    }
}

pub open spec fn mip_levels_spec(width: u32, height: u32) -> nat {
    let m = if width >= height {
        width
    } else {
        height
    };
    log2_floor(m as nat) + 1
}

proof fn lemma_log2_floor_pow(n: nat, k: nat)
    requires
        n < pow2(k + 1),
    ensures
        log2_floor(n) <= k,
    decreases n,
{
    lemma_pow2_unfold(k + 1);
    lemma2_to64();
    if n > 1 && k > 0 {
        lemma_log2_floor_pow(n / 2, (k - 1) as nat);
    }
}

/// Number of mip levels of a full chain for a `width` x `height` image:
/// one per halving of the larger side down to 1, plus the base level.
pub fn mip_level_count(width: u32, height: u32) -> (r: u32)
    ensures
        r == mip_levels_spec(width, height),
{
    let mut n: u32 = if width >= height {
        width
    } else {
        height
    };
    let ghost m = n as nat;
    let mut levels: u32 = 1;
    proof {
        lemma2_to64();
        lemma_log2_floor_pow(m, 31);
    }
    while n > 1
        invariant
            levels as nat + log2_floor(n as nat) == log2_floor(m) + 1,
            log2_floor(m) <= 31,
        decreases n,
    {
        n = n / 2;
        levels = levels + 1;
    }
    levels
}

/// Side length of mip level `level` for a base side of `base`: halved per
/// level, never below 1.
pub open spec fn mip_extent(base: u32, level: nat) -> u32
    decreases level,
{
    if level == 0 {
        base
    } else {
        let prev = mip_extent(base, (level - 1) as nat);
        if prev / 2 >= 1 {
            prev / 2
        } else {
            1
        }
    }
}

/// One blit of a mip chain: level `dst_level` is filtered down from the level before it.
#[derive(Clone, Copy, PartialEq, Eq, Debug, Structural)]
pub struct MipBlit {
    pub src_level: u32,
    pub dst_level: u32,
    pub src_width: u32,
    pub src_height: u32,
    pub dst_width: u32,
    pub dst_height: u32,
}

pub open spec fn mip_blit_spec(width: u32, height: u32, k: nat) -> MipBlit {
    MipBlit {
        src_level: k as u32,
        dst_level: (k + 1) as u32,
        src_width: mip_extent(width, k),
        src_height: mip_extent(height, k),
        dst_width: mip_extent(width, k + 1),
        dst_height: mip_extent(height, k + 1),
    }
}

fn halve_at_least_one(x: u32) -> (r: u32)
    ensures
        r == (if x / 2 >= 1 {
            x / 2
        } else {
            1
        }),
{
    if x / 2 >= 1 {
        x / 2
    } else {
        1
    }
}

/// The blits that fill levels 1 .. `levels` of a mip chain, each from the level before.
pub fn mip_blits(width: u32, height: u32, levels: u32) -> (r: Vec<MipBlit>)
    ensures
        levels == 0 ==> r@.len() == 0,
        levels > 0 ==> r@ == Seq::new((levels - 1) as nat, |k: int| mip_blit_spec(width, height, k as nat)),
{
    let mut out: Vec<MipBlit> = Vec::new();
    if levels == 0 {
        return out;
    }
    let mut w = width;
    let mut h = height;
    let mut k: u32 = 0;
    while k + 1 < levels
        invariant
            k < levels,
            w == mip_extent(width, k as nat),
            h == mip_extent(height, k as nat),
            out@ == Seq::new(k as nat, |i: int| mip_blit_spec(width, height, i as nat)),
        decreases levels - k,
    {
        let nw = halve_at_least_one(w);
        let nh = halve_at_least_one(h);
        out.push(MipBlit { src_level: k, dst_level: k + 1, src_width: w, src_height: h, dst_width: nw, dst_height: nh });
        proof {
            assert(out@ =~= Seq::new((k + 1) as nat, |i: int| mip_blit_spec(width, height, i as nat)));
        }
        w = nw;
        h = nh;
        k = k + 1;
    }
    out
}

#[derive(Clone, Copy, PartialEq, Eq, Debug, Structural)]
pub enum ImageLayout {
    Undefined,
    TransferDstOptimal,
    ShaderReadOnlyOptimal,
    DepthStencilAttachmentOptimal,
}

#[derive(Clone, Copy, PartialEq, Eq, Debug, Structural)]
pub enum AccessMask {
    NoAccess,
    TransferWrite,
    ShaderRead,
    DepthStencilReadWrite,
}

#[derive(Clone, Copy, PartialEq, Eq, Debug, Structural)]
pub enum PipelineStage {
    TopOfPipe,
    Transfer,
    FragmentShader,
    EarlyFragmentTests,
}

#[derive(Clone, Copy, PartialEq, Eq, Debug, Structural)]
pub enum AspectMask {
    Color,
    Depth,
    DepthStencil,
}

/// Access masks, stages and aspect of an image layout barrier.
#[derive(Clone, Copy, PartialEq, Eq, Debug, Structural)]
pub struct LayoutTransition {
    pub src_access: AccessMask,
    pub dst_access: AccessMask,
    pub src_stage: PipelineStage,
    pub dst_stage: PipelineStage,
    pub aspect: AspectMask,
}

pub open spec fn has_stencil_spec(format: i32) -> bool {
    format == FORMAT_D32_SFLOAT_S8_UINT || format == FORMAT_D24_UNORM_S8_UINT
}

pub fn has_stencil_component(format: i32) -> (r: bool)
    ensures
        r == has_stencil_spec(format),
{
    format == FORMAT_D32_SFLOAT_S8_UINT || format == FORMAT_D24_UNORM_S8_UINT
}

pub open spec fn transition_spec(old: ImageLayout, new: ImageLayout, format: i32) -> Option<LayoutTransition> {
    let aspect = if new == ImageLayout::DepthStencilAttachmentOptimal {
        if has_stencil_spec(format) {
            AspectMask::DepthStencil
        } else {
            AspectMask::Depth
        }
    } else {
        AspectMask::Color
    };
    if old == ImageLayout::Undefined && new == ImageLayout::TransferDstOptimal {
        Some(LayoutTransition { src_access: AccessMask::NoAccess, dst_access: AccessMask::TransferWrite, src_stage: PipelineStage::TopOfPipe, dst_stage: PipelineStage::Transfer, aspect })
    } else if old == ImageLayout::TransferDstOptimal && new == ImageLayout::ShaderReadOnlyOptimal {
        Some(LayoutTransition { src_access: AccessMask::TransferWrite, dst_access: AccessMask::ShaderRead, src_stage: PipelineStage::Transfer, dst_stage: PipelineStage::FragmentShader, aspect })
    } else if old == ImageLayout::Undefined && new == ImageLayout::DepthStencilAttachmentOptimal {
        Some(LayoutTransition { src_access: AccessMask::NoAccess, dst_access: AccessMask::DepthStencilReadWrite, src_stage: PipelineStage::TopOfPipe, dst_stage: PipelineStage::EarlyFragmentTests, aspect })
    } else {
        None
    }
}

/// The barrier for moving an image of `format` from layout `old` to `new`;
/// `None` for a transition the renderer does not perform.
pub fn plan_layout_transition(old: ImageLayout, new: ImageLayout, format: i32) -> (r: Option<LayoutTransition>)
    ensures
        r == transition_spec(old, new, format),
{
    let aspect = if new == ImageLayout::DepthStencilAttachmentOptimal {
        if has_stencil_component(format) {
            AspectMask::DepthStencil
        } else {
            AspectMask::Depth
        }
    } else {
        AspectMask::Color
    };
    if old == ImageLayout::Undefined && new == ImageLayout::TransferDstOptimal {
        Some(LayoutTransition { src_access: AccessMask::NoAccess, dst_access: AccessMask::TransferWrite, src_stage: PipelineStage::TopOfPipe, dst_stage: PipelineStage::Transfer, aspect })
    } else if old == ImageLayout::TransferDstOptimal && new == ImageLayout::ShaderReadOnlyOptimal {
        Some(LayoutTransition { src_access: AccessMask::TransferWrite, dst_access: AccessMask::ShaderRead, src_stage: PipelineStage::Transfer, dst_stage: PipelineStage::FragmentShader, aspect })
    } else if old == ImageLayout::Undefined && new == ImageLayout::DepthStencilAttachmentOptimal {
        Some(LayoutTransition { src_access: AccessMask::NoAccess, dst_access: AccessMask::DepthStencilReadWrite, src_stage: PipelineStage::TopOfPipe, dst_stage: PipelineStage::EarlyFragmentTests, aspect })
    } else {
        None
    }
}

} // verus!
