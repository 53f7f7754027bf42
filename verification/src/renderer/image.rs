use vstd::prelude::*;

use crate::arith::{div_i32, div_trunc};

verus! {

/// `VK_IMAGE_TILING_OPTIMAL`.
pub const TILING_OPTIMAL: i32 = 0;

/// `VK_IMAGE_TILING_LINEAR`.
pub const TILING_LINEAR: i32 = 1;

/// A pixel format with the features the device supports for it under each tiling.
#[derive(Copy, Clone, Debug, PartialEq, Eq)]
pub struct FormatCandidate {
    pub format: i32,
    pub linear_tiling_features: u32,
    pub optimal_tiling_features: u32,
}

/// Whether `candidate` has all the `features` under `tiling`.
pub open spec fn supported_format(candidate: FormatCandidate, tiling: i32, features: u32) -> bool {
    ||| (tiling == TILING_LINEAR && candidate.linear_tiling_features & features == features)
    ||| (tiling == TILING_OPTIMAL && candidate.optimal_tiling_features & features == features)
}

/// The first of `candidates` that has the features, if any.
pub open spec fn first_supported(candidates: Seq<FormatCandidate>, tiling: i32, features: u32) -> Option<i32>
    decreases candidates.len(),
{
    if candidates.len() == 0 {
        None
    } else if supported_format(candidates[0], tiling, features) {
        Some(candidates[0].format)
    } else {
        first_supported(candidates.drop_first(), tiling, features)
    }
}

/// Whether `c` has every bit of `features` among the features the device
/// reports for it under `tiling` (1 for linear, 0 for optimal).
pub open spec fn has_tiling_features(c: FormatCandidate, tiling: i32, features: u32) -> bool {
    ||| (tiling == 1 && c.linear_tiling_features & features == features)
    ||| (tiling == 0 && c.optimal_tiling_features & features == features)
}

/// `f` is the format of the earliest candidate that has the features.
pub open spec fn is_earliest_with_features(candidates: Seq<FormatCandidate>, tiling: i32, features: u32, f: i32) -> bool {
    exists|i: int|
        0 <= i < candidates.len() && candidates[i].format == f && has_tiling_features(
            candidates[i],
            tiling,
            features,
        ) && forall|j: int| 0 <= j < i ==> !has_tiling_features(#[trigger] candidates[j], tiling, features)
}

/// The format search gives the format of the earliest candidate that has the
/// features under the tiling, and `None` only where no candidate has them.
pub proof fn lemma_first_supported_is_earliest(candidates: Seq<FormatCandidate>, tiling: i32, features: u32)
    ensures
        match first_supported(candidates, tiling, features) {
            Some(f) => is_earliest_with_features(candidates, tiling, features, f),
            None => forall|i: int|
                0 <= i < candidates.len() ==> !has_tiling_features(#[trigger] candidates[i], tiling, features),
        },
    decreases candidates.len(),
{
    if candidates.len() > 0 {
        let rest = candidates.drop_first();
        lemma_first_supported_is_earliest(rest, tiling, features);
        match first_supported(candidates, tiling, features) {
            Some(f) => {
                if has_tiling_features(candidates[0], tiling, features) {
                    assert(candidates[0].format == f);
                } else {
                    let k = choose|k: int|
                        0 <= k < rest.len() && rest[k].format == f && has_tiling_features(rest[k], tiling, features)
                            && forall|j: int| 0 <= j < k ==> !has_tiling_features(#[trigger] rest[j], tiling, features);
                    assert(candidates[k + 1] == rest[k]);
                    assert forall|j: int| 0 <= j < k + 1 implies !has_tiling_features(
                        #[trigger] candidates[j],
                        tiling,
                        features,
                    ) by {
                        if j > 0 {
                            assert(candidates[j] == rest[j - 1]);
                        }
                    }
                }
            },
            None => {
                assert forall|i: int| 0 <= i < candidates.len() implies !has_tiling_features(
                    #[trigger] candidates[i],
                    tiling,
                    features,
                ) by {
                    if i > 0 {
                        assert(candidates[i] == rest[i - 1]);
                    }
                }
            },
        }
    }
}

/// The first of `candidates` that supports all the `features` under `tiling`;
/// `None` where none does, on which the renderer gives up.
pub fn find_supported_format(candidates: &[FormatCandidate], tiling: i32, features: u32) -> (r: Option<i32>)
    ensures
        r == first_supported(candidates@, tiling, features),
        match r {
            Some(f) => is_earliest_with_features(candidates@, tiling, features, f),
            None => forall|i: int|
                0 <= i < candidates@.len() ==> !has_tiling_features(#[trigger] candidates@[i], tiling, features),
        },
{
    proof {
        lemma_first_supported_is_earliest(candidates@, tiling, features);
    }
    let n = candidates.len();
    let mut i: usize = 0;
    assert(candidates@.skip(0) =~= candidates@);
    while i < n
        invariant
            n == candidates@.len(),
            i <= n,
            first_supported(candidates@, tiling, features) == first_supported(
                candidates@.skip(i as int),
                tiling,
                features,
            ),
        decreases n - i,
    {
        let c = candidates[i];
        assert(candidates@.skip(i as int)[0] == c);
        assert(candidates@.skip(i as int).drop_first() =~= candidates@.skip(i + 1));
        if (tiling == TILING_LINEAR && c.linear_tiling_features & features == features) || (tiling
            == TILING_OPTIMAL && c.optimal_tiling_features & features == features) {
            proof {
                lemma_first_supported_is_earliest(candidates@, tiling, features);
            }
            return Some(c.format);
        }
        i = i + 1;
    }
    None
}

/// `VK_IMAGE_LAYOUT_UNDEFINED`.
pub const LAYOUT_UNDEFINED: i32 = 0;

/// `VK_IMAGE_LAYOUT_GENERAL`.
pub const LAYOUT_GENERAL: i32 = 1;

/// `VK_IMAGE_LAYOUT_SHADER_READ_ONLY_OPTIMAL`.
pub const LAYOUT_SHADER_READ_ONLY_OPTIMAL: i32 = 5;

/// `VK_IMAGE_LAYOUT_TRANSFER_SRC_OPTIMAL`.
pub const LAYOUT_TRANSFER_SRC_OPTIMAL: i32 = 6;

/// `VK_IMAGE_LAYOUT_TRANSFER_DST_OPTIMAL`.
pub const LAYOUT_TRANSFER_DST_OPTIMAL: i32 = 7;

/// `VK_ACCESS_SHADER_READ_BIT`.
pub const ACCESS_SHADER_READ: u32 = 0x20;

/// `VK_ACCESS_SHADER_WRITE_BIT`.
pub const ACCESS_SHADER_WRITE: u32 = 0x40;

/// `VK_ACCESS_TRANSFER_READ_BIT`.
pub const ACCESS_TRANSFER_READ: u32 = 0x800;

/// `VK_ACCESS_TRANSFER_WRITE_BIT`.
pub const ACCESS_TRANSFER_WRITE: u32 = 0x1000;

/// `VK_PIPELINE_STAGE_TOP_OF_PIPE_BIT`.
pub const STAGE_TOP_OF_PIPE: u32 = 0x1;

/// `VK_PIPELINE_STAGE_FRAGMENT_SHADER_BIT`.
pub const STAGE_FRAGMENT_SHADER: u32 = 0x80;

/// `VK_PIPELINE_STAGE_COMPUTE_SHADER_BIT`.
pub const STAGE_COMPUTE_SHADER: u32 = 0x800;

/// `VK_PIPELINE_STAGE_TRANSFER_BIT`.
pub const STAGE_TRANSFER: u32 = 0x1000;

/// The access masks and pipeline stages on either side of an image layout
/// transition's barrier.
#[derive(Copy, Clone, Debug, PartialEq, Eq)]
pub struct TransitionMasks {
    pub src_access_mask: u32,
    pub dst_access_mask: u32,
    pub src_stage_mask: u32,
    pub dst_stage_mask: u32,
}

pub open spec fn masks(src_access: u32, dst_access: u32, src_stage: u32, dst_stage: u32) -> TransitionMasks {
    TransitionMasks {
        src_access_mask: src_access,
        dst_access_mask: dst_access,
        src_stage_mask: src_stage,
        dst_stage_mask: dst_stage,
    }
}

/// The barrier masks of each layout transition the renderer performs.
pub open spec fn spec_transition_masks(old_layout: i32, new_layout: i32) -> Option<TransitionMasks> {
    if old_layout == LAYOUT_UNDEFINED && new_layout == LAYOUT_TRANSFER_DST_OPTIMAL {
        Some(masks(0, ACCESS_TRANSFER_WRITE, STAGE_TOP_OF_PIPE, STAGE_TRANSFER))
    } else if old_layout == LAYOUT_TRANSFER_DST_OPTIMAL && new_layout
        == LAYOUT_SHADER_READ_ONLY_OPTIMAL {
        Some(masks(ACCESS_TRANSFER_WRITE, ACCESS_SHADER_READ, STAGE_TRANSFER, STAGE_FRAGMENT_SHADER))
    } else if old_layout == LAYOUT_TRANSFER_SRC_OPTIMAL && new_layout
        == LAYOUT_SHADER_READ_ONLY_OPTIMAL {
        Some(masks(ACCESS_TRANSFER_READ, ACCESS_SHADER_READ, STAGE_TRANSFER, STAGE_FRAGMENT_SHADER))
    } else if old_layout == LAYOUT_UNDEFINED && new_layout == LAYOUT_SHADER_READ_ONLY_OPTIMAL {
        Some(masks(0, ACCESS_SHADER_READ, STAGE_TOP_OF_PIPE, STAGE_FRAGMENT_SHADER))
    } else if old_layout == LAYOUT_SHADER_READ_ONLY_OPTIMAL && new_layout == LAYOUT_GENERAL {
        Some(masks(ACCESS_SHADER_READ, ACCESS_SHADER_WRITE, STAGE_FRAGMENT_SHADER, STAGE_COMPUTE_SHADER))
    } else if old_layout == LAYOUT_GENERAL && new_layout == LAYOUT_SHADER_READ_ONLY_OPTIMAL {
        Some(masks(ACCESS_SHADER_WRITE, ACCESS_SHADER_READ, STAGE_COMPUTE_SHADER, STAGE_FRAGMENT_SHADER))
    } else if old_layout == LAYOUT_TRANSFER_DST_OPTIMAL && new_layout
        == LAYOUT_TRANSFER_SRC_OPTIMAL {
        Some(masks(ACCESS_TRANSFER_WRITE, ACCESS_TRANSFER_READ, STAGE_TRANSFER, STAGE_TRANSFER))
    } else {
        None
    }
}

/// The access a layout is used for and the pipeline stage that performs it:
/// nothing at the top of the pipe before an undefined layout, transfer
/// writes and reads for the transfer layouts, shader reads in the fragment
/// shader for the read-only layout, and shader writes in the compute shader
/// for the general layout.
pub open spec fn layout_usage(layout: i32) -> (u32, u32) {
    if layout == 0 {
        (0, 0x1)
    } else if layout == 7 {
        (0x1000, 0x1000)
    } else if layout == 6 {
        (0x800, 0x1000)
    } else if layout == 5 {
        (0x20, 0x80)
    } else {
        (0x40, 0x800)
    }
}

/// Every barrier waits for the accesses of the layout it leaves, in the stage
/// that performs them, and holds back the accesses of the layout it enters, in
/// the stage that performs those: in particular a transition into the
/// shader-read-only layout makes the fragment shader wait. The seven
/// transitions the renderer makes are all supported.
pub proof fn lemma_transition_masks_follow_layouts(old_layout: i32, new_layout: i32)
    ensures
        spec_transition_masks(old_layout, new_layout) matches Some(m) ==> {
            &&& (m.src_access_mask, m.src_stage_mask) == layout_usage(old_layout)
            &&& (m.dst_access_mask, m.dst_stage_mask) == layout_usage(new_layout)
            &&& (m.dst_access_mask & 0x20 != 0 ==> m.dst_stage_mask == 0x80 || m.dst_stage_mask == 0x800)
        },
        new_layout == 5 ==> (spec_transition_masks(old_layout, new_layout) matches Some(m)
            ==> m.dst_access_mask == 0x20 && m.dst_stage_mask == 0x80),
        (old_layout == 0 && new_layout == 7) || (old_layout == 7 && new_layout == 5) || (old_layout
            == 6 && new_layout == 5) || (old_layout == 0 && new_layout == 5) || (old_layout == 5
            && new_layout == 1) || (old_layout == 1 && new_layout == 5) || (old_layout == 7
            && new_layout == 6) ==> spec_transition_masks(old_layout, new_layout) is Some,
{
    assert(0x1000u32 & 0x20 == 0) by (bit_vector);
    assert(0x800u32 & 0x20 == 0) by (bit_vector);
    assert(0x40u32 & 0x20 == 0) by (bit_vector);
    assert(0x20u32 & 0x20 != 0) by (bit_vector);
}

/// The barrier masks for moving an image from `old_layout` to `new_layout`;
/// `None` for a transition the renderer does not support, on which it gives up.
pub fn transition_masks(old_layout: i32, new_layout: i32) -> (r: Option<TransitionMasks>)
    ensures
        r == spec_transition_masks(old_layout, new_layout),
        r matches Some(m) ==> (m.src_access_mask, m.src_stage_mask) == layout_usage(old_layout)
            && (m.dst_access_mask, m.dst_stage_mask) == layout_usage(new_layout),
{
    proof {
        lemma_transition_masks_follow_layouts(old_layout, new_layout);
    }
    if old_layout == LAYOUT_UNDEFINED && new_layout == LAYOUT_TRANSFER_DST_OPTIMAL {
        Some(TransitionMasks {
            src_access_mask: 0,
            dst_access_mask: ACCESS_TRANSFER_WRITE,
            src_stage_mask: STAGE_TOP_OF_PIPE,
            dst_stage_mask: STAGE_TRANSFER,
        })
    } else if old_layout == LAYOUT_TRANSFER_DST_OPTIMAL && new_layout
        == LAYOUT_SHADER_READ_ONLY_OPTIMAL {
        Some(TransitionMasks {
            src_access_mask: ACCESS_TRANSFER_WRITE,
            dst_access_mask: ACCESS_SHADER_READ,
            src_stage_mask: STAGE_TRANSFER,
            dst_stage_mask: STAGE_FRAGMENT_SHADER,
        })
    } else if old_layout == LAYOUT_TRANSFER_SRC_OPTIMAL && new_layout
        == LAYOUT_SHADER_READ_ONLY_OPTIMAL {
        Some(TransitionMasks {
            src_access_mask: ACCESS_TRANSFER_READ,
            dst_access_mask: ACCESS_SHADER_READ,
            src_stage_mask: STAGE_TRANSFER,
            dst_stage_mask: STAGE_FRAGMENT_SHADER,
        })
    } else if old_layout == LAYOUT_UNDEFINED && new_layout == LAYOUT_SHADER_READ_ONLY_OPTIMAL {
        Some(TransitionMasks {
            src_access_mask: 0,
            dst_access_mask: ACCESS_SHADER_READ,
            src_stage_mask: STAGE_TOP_OF_PIPE,
            dst_stage_mask: STAGE_FRAGMENT_SHADER,
        })
    } else if old_layout == LAYOUT_SHADER_READ_ONLY_OPTIMAL && new_layout == LAYOUT_GENERAL {
        Some(TransitionMasks {
            src_access_mask: ACCESS_SHADER_READ,
            dst_access_mask: ACCESS_SHADER_WRITE,
            src_stage_mask: STAGE_FRAGMENT_SHADER,
            dst_stage_mask: STAGE_COMPUTE_SHADER,
        })
    } else if old_layout == LAYOUT_GENERAL && new_layout == LAYOUT_SHADER_READ_ONLY_OPTIMAL {
        Some(TransitionMasks {
            src_access_mask: ACCESS_SHADER_WRITE,
            dst_access_mask: ACCESS_SHADER_READ,
            src_stage_mask: STAGE_COMPUTE_SHADER,
            dst_stage_mask: STAGE_FRAGMENT_SHADER,
        })
    } else if old_layout == LAYOUT_TRANSFER_DST_OPTIMAL && new_layout
        == LAYOUT_TRANSFER_SRC_OPTIMAL {
        Some(TransitionMasks {
            src_access_mask: ACCESS_TRANSFER_WRITE,
            dst_access_mask: ACCESS_TRANSFER_READ,
            src_stage_mask: STAGE_TRANSFER,
            dst_stage_mask: STAGE_TRANSFER,
        })
    } else {
        None
    }
}

/// The first mip level a barrier covers and how many: the one level given,
/// or all of the image's levels.
pub fn mip_range(mip_level: Option<u32>, mip_levels: u32) -> (r: (u32, u32))
    ensures
        r == match mip_level {
            Some(level) => (level, 1u32),
            None => (0u32, mip_levels),
        },
{
    match mip_level {
        Some(level) => (level, 1),
        None => (0, mip_levels),
    }
}

/// The base-2 logarithm of `n`, rounded down.
pub open spec fn log2(n: nat) -> nat
    decreases n,
{
    if n < 2 {
        0
    } else {
        1 + log2(n / 2)
    }
}

/// The number of levels of a full mip chain for an image of the given size:
/// one more than the base-2 logarithm of its longer side. Without
/// mipmapping, one.
pub fn mip_levels(width: u32, height: u32, mipmapping: bool) -> (r: u32)
    requires
        mipmapping ==> width > 0 || height > 0,
    ensures
        r == if mipmapping {
            log2(if width > height { width as nat } else { height as nat }) + 1
        } else {
            1
        },
        mipmapping ==> r >= 1 && pow2_nat((r - 1) as nat) <= (if width > height {
            width as nat
        } else {
            height as nat
        }) < pow2_nat(r as nat),
{
    proof {
        if mipmapping {
            lemma_mip_levels_halve_to_one(width, height);
        }
    }
    if mipmapping {
        let longest = if width > height {
            width
        } else {
            height
        };
        let mut n = longest;
        let mut levels: u32 = 1;
        proof {
            reveal_with_fuel(pow2_nat, 33);
            assert(pow2_nat(32) == 0x1_0000_0000);
            lemma_log2_lt(longest as nat, 32);
        }
        while n >= 2
            invariant
                1 <= levels,
                n >= 1,
                log2(longest as nat) < 32,
                log2(longest as nat) + 1 == log2(n as nat) + levels,
            decreases n,
        {
            n = n / 2;
            levels = levels + 1;
        }
        levels
    } else {
        1
    }
}

proof fn lemma_log2_lt(n: nat, k: nat)
    requires
        1 <= n < pow2_nat(k),
    ensures
        log2(n) < k,
    decreases n,
{
    if n >= 2 {
        assert(k >= 1);
        lemma_log2_lt(n / 2, (k - 1) as nat);
    }
}

pub open spec fn pow2_nat(k: nat) -> nat
    decreases k,
{
    if k == 0 {
        1
    } else {
        2 * pow2_nat((k - 1) as nat)
    }
}

/// `log2` is the base-2 logarithm rounded down: `2^log2(n) <= n < 2^(log2(n) + 1)`.
pub proof fn lemma_log2_brackets(n: nat)
    requires
        n >= 1,
    ensures
        pow2_nat(log2(n)) <= n < pow2_nat(log2(n) + 1),
    decreases n,
{
    if n >= 2 {
        lemma_log2_brackets(n / 2);
        assert(pow2_nat(log2(n)) == 2 * pow2_nat(log2(n / 2)));
        assert(pow2_nat(log2(n) + 1) == 2 * pow2_nat(log2(n / 2) + 1));
    } else {
        assert(pow2_nat(0) == 1);
        assert(pow2_nat(1) == 2 * pow2_nat(0));
    }
}

/// A full mip chain halves the longer side down to one pixel: with `L`
/// levels, `2^(L-1) <= longer side < 2^L`.
pub proof fn lemma_mip_levels_halve_to_one(width: u32, height: u32)
    requires
        width > 0 || height > 0,
    ensures
        ({
            let longest: nat = if width > height { width as nat } else { height as nat };
            let levels = log2(longest) + 1;
            pow2_nat((levels - 1) as nat) <= longest < pow2_nat(levels)
        }),
{
    let longest: nat = if width > height { width as nat } else { height as nat };
    lemma_log2_brackets(longest);
}

/// The size of the next smaller mip level along one side: half, but at least one pixel.
pub fn next_mip_size(size: i32) -> (r: i32)
    ensures
        r == if div_trunc(size as int, 2) > 1 {
            div_trunc(size as int, 2)
        } else {
            1
        },
{
    let half = div_i32(size, 2);
    if half > 1 {
        half
    } else {
        1
    }
}

/// The next smaller mip level's size along one side: half, but at least one pixel.
pub open spec fn spec_next_mip_size(size: int) -> int {
    if div_trunc(size, 2) > 1 {
        div_trunc(size, 2)
    } else {
        1
    }
}

/// The size along one side of mip level `level` of an image `size` pixels wide.
pub open spec fn spec_mip_size(size: int, level: nat) -> int
    decreases level,
{
    if level == 0 {
        size
    } else {
        spec_next_mip_size(spec_mip_size(size, (level - 1) as nat))
    }
}

/// One command recorded to upload an image from a staging buffer.
#[derive(Copy, Clone, Debug, PartialEq, Eq)]
pub enum UploadCommand {
    /// A layout transition of one mip level, or of all of them.
    Transition { mip_level: Option<u32>, old_layout: i32, new_layout: i32 },
    /// The copy of the staging buffer into mip level 0.
    CopyBufferToImage,
    /// A linear blit from one mip level, of the given size, to the next.
    Blit { src_level: u32, src_size: (i32, i32), dst_level: u32, dst_size: (i32, i32) },
}

/// How many commands the upload records.
pub open spec fn spec_upload_len(mipmapping: bool, mip_levels: u32) -> int {
    if mipmapping {
        2 * mip_levels + 2
    } else {
        3
    }
}

/// The command at position `n` of the upload: level 0 is filled from the
/// buffer; with mipmapping, each level in turn becomes a blit source for the
/// next, half its size, and the last level becomes a source too; finally all
/// levels become readable by shaders.
pub open spec fn spec_upload_command(width: i32, height: i32, mipmapping: bool, mip_levels: u32, n: int) -> UploadCommand {
    if n == 0 {
        UploadCommand::Transition {
            mip_level: None,
            old_layout: LAYOUT_UNDEFINED,
            new_layout: LAYOUT_TRANSFER_DST_OPTIMAL,
        }
    } else if n == 1 {
        UploadCommand::CopyBufferToImage
    } else if !mipmapping {
        UploadCommand::Transition {
            mip_level: None,
            old_layout: LAYOUT_TRANSFER_DST_OPTIMAL,
            new_layout: LAYOUT_SHADER_READ_ONLY_OPTIMAL,
        }
    } else if n < 2 * mip_levels {
        let level = (n - 2) / 2;
        if n % 2 == 0 {
            UploadCommand::Transition {
                mip_level: Some(level as u32),
                old_layout: LAYOUT_TRANSFER_DST_OPTIMAL,
                new_layout: LAYOUT_TRANSFER_SRC_OPTIMAL,
            }
        } else {
            UploadCommand::Blit {
                src_level: level as u32,
                src_size: (
                    spec_mip_size(width as int, level as nat) as i32,
                    spec_mip_size(height as int, level as nat) as i32,
                ),
                dst_level: (level + 1) as u32,
                dst_size: (
                    spec_mip_size(width as int, (level + 1) as nat) as i32,
                    spec_mip_size(height as int, (level + 1) as nat) as i32,
                ),
            }
        }
    } else if n == 2 * mip_levels {
        UploadCommand::Transition {
            mip_level: Some((mip_levels - 1) as u32),
            old_layout: LAYOUT_TRANSFER_DST_OPTIMAL,
            new_layout: LAYOUT_TRANSFER_SRC_OPTIMAL,
        }
    } else {
        UploadCommand::Transition {
            mip_level: None,
            old_layout: LAYOUT_TRANSFER_SRC_OPTIMAL,
            new_layout: LAYOUT_SHADER_READ_ONLY_OPTIMAL,
        }
    }
}

proof fn lemma_mip_size_bounds(size: int, level: nat)
    requires
        1 <= size <= i32::MAX,
    ensures
        1 <= spec_mip_size(size, level) <= i32::MAX,
    decreases level,
{
    if level > 0 {
        lemma_mip_size_bounds(size, (level - 1) as nat);
        let prev = spec_mip_size(size, (level - 1) as nat);
        assert(div_trunc(prev, 2) <= prev) by (nonlinear_arith)
            requires
                prev >= 1,
                div_trunc(prev, 2) == prev / 2,
        ;
    }
}

/// Mip level `level` of a side of `size >= 1` pixels is `size / 2^level`,
/// rounded down, but at least one pixel.
#[verifier::spinoff_prover]
pub proof fn lemma_mip_size_closed_form(size: int, level: nat)
    requires
        size >= 1,
    ensures
        spec_mip_size(size, level) == if size / (pow2_nat(level) as int) >= 1 {
            size / (pow2_nat(level) as int)
        } else {
            1
        },
    decreases level,
{
    lemma_pow2_nat_positive(level);
    if level > 0 {
        let prev = (level - 1) as nat;
        lemma_mip_size_closed_form(size, prev);
        lemma_pow2_nat_positive(prev);
        let p = pow2_nat(prev) as int;
        assert(pow2_nat(level) == 2 * pow2_nat(prev));
        vstd::arithmetic::div_mod::lemma_div_denominator(size, p, 2);
        assert(p * 2 == pow2_nat(level) as int);
        let q = size / p;
        assert(q >= 0) by {
            vstd::arithmetic::div_mod::lemma_div_pos_is_pos(size, p);
        }
        assert(size / (pow2_nat(level) as int) == q / 2);
        assert(spec_mip_size(size, prev) == if q >= 1 { q } else { 1 });
        if q >= 1 {
            assert(div_trunc(q, 2) == q / 2);
        } else {
            assert(q / 2 == 0);
            assert(crate::arith::abs(1) == 1 && crate::arith::abs(2) == 2);
            assert(1int / 2int == 0);
            assert(div_trunc(1, 2) == 0);
        }
    } else {
        assert(pow2_nat(0) == 1);
        assert(size / 1 == size);
    }
}

proof fn lemma_pow2_nat_positive(k: nat)
    ensures
        pow2_nat(k) >= 1,
    decreases k,
{
    if k > 0 {
        lemma_pow2_nat_positive((k - 1) as nat);
    }
}

/// In a mipmapped upload, every blit goes from one level to the next, right
/// after its source level became a transfer source; its source is that
/// level's size (the image's size halved once per level, at least one pixel)
/// and its destination half of that, at least one pixel. The upload starts
/// by making the whole image a transfer destination and filling level 0, and
/// ends by making the whole image readable by shaders.
#[verifier::spinoff_prover]
pub proof fn lemma_upload_blits_halve(width: i32, height: i32, mip_levels: u32, n: int)
    requires
        width >= 1,
        height >= 1,
        mip_levels >= 1,
        0 <= n < spec_upload_len(true, mip_levels),
    ensures
        spec_upload_command(width, height, true, mip_levels, 0) == (UploadCommand::Transition {
            mip_level: None,
            old_layout: 0,
            new_layout: 7,
        }),
        spec_upload_command(width, height, true, mip_levels, 1) == UploadCommand::CopyBufferToImage,
        spec_upload_command(width, height, true, mip_levels, 2 * mip_levels + 1) == (
        UploadCommand::Transition { mip_level: None, old_layout: 6, new_layout: 5 }),
        spec_upload_command(width, height, true, mip_levels, n) matches UploadCommand::Blit {
            src_level,
            src_size,
            dst_level,
            dst_size,
        } ==> {
            &&& dst_level == src_level + 1 && dst_level < mip_levels
            &&& spec_upload_command(width, height, true, mip_levels, n - 1) == (
            UploadCommand::Transition { mip_level: Some(src_level), old_layout: 7, new_layout: 6 })
            &&& src_size.0 == if (width as int) / (pow2_nat(src_level as nat) as int) >= 1 {
                (width as int) / (pow2_nat(src_level as nat) as int)
            } else {
                1
            }
            &&& src_size.1 == if (height as int) / (pow2_nat(src_level as nat) as int) >= 1 {
                (height as int) / (pow2_nat(src_level as nat) as int)
            } else {
                1
            }
            &&& dst_size.0 == if src_size.0 / 2 >= 1 {
                src_size.0 / 2
            } else {
                1
            }
            &&& dst_size.1 == if src_size.1 / 2 >= 1 {
                src_size.1 / 2
            } else {
                1
            }
        },
{
    if n >= 2 && n < 2 * mip_levels && n % 2 == 1 {
        let level = (n - 2) / 2;
        assert(level >= 0 && level + 1 < mip_levels);
        assert((n - 1 - 2) / 2 == level && (n - 1) % 2 == 0);
        lemma_mip_size_bounds(width as int, level as nat);
        lemma_mip_size_bounds(height as int, level as nat);
        lemma_mip_size_bounds(width as int, (level + 1) as nat);
        lemma_mip_size_bounds(height as int, (level + 1) as nat);
        lemma_mip_size_closed_form(width as int, level as nat);
        lemma_mip_size_closed_form(height as int, level as nat);
        let w = spec_mip_size(width as int, level as nat);
        let h = spec_mip_size(height as int, level as nat);
        assert(spec_mip_size(width as int, (level + 1) as nat) == spec_next_mip_size(w));
        assert(spec_mip_size(height as int, (level + 1) as nat) == spec_next_mip_size(h));
        assert(div_trunc(w, 2) == w / 2);
        assert(div_trunc(h, 2) == h / 2);
    }
}

/// Without mipmapping, the upload makes the image a transfer destination,
/// fills it from the buffer and makes it readable by shaders: three commands.
pub proof fn lemma_upload_without_mipmaps(width: i32, height: i32, mip_levels: u32)
    ensures
        spec_upload_len(false, mip_levels) == 3,
        spec_upload_command(width, height, false, mip_levels, 0) == (UploadCommand::Transition {
            mip_level: None,
            old_layout: 0,
            new_layout: 7,
        }),
        spec_upload_command(width, height, false, mip_levels, 1) == UploadCommand::CopyBufferToImage,
        spec_upload_command(width, height, false, mip_levels, 2) == (UploadCommand::Transition {
            mip_level: None,
            old_layout: 7,
            new_layout: 5,
        }),
{
}

/// The commands that upload an image of `width` by `height` pixels from a
/// staging buffer into an image with `mip_levels` levels, generating the
/// smaller levels by blitting each from the one before when `mipmapping`.
pub fn upload_commands(width: i32, height: i32, mipmapping: bool, mip_levels: u32) -> (r: Vec<UploadCommand>)
    requires
        width >= 1,
        height >= 1,
        mipmapping ==> 1 <= mip_levels,
    ensures
        r@.len() == spec_upload_len(mipmapping, mip_levels),
        forall|n: int|
            0 <= n < r@.len() ==> r@[n] == spec_upload_command(width, height, mipmapping, mip_levels, n),
{
    let mut commands: Vec<UploadCommand> = Vec::new();
    commands.push(
        UploadCommand::Transition {
            mip_level: None,
            old_layout: LAYOUT_UNDEFINED,
            new_layout: LAYOUT_TRANSFER_DST_OPTIMAL,
        },
    );
    commands.push(UploadCommand::CopyBufferToImage);
    if !mipmapping {
        commands.push(
            UploadCommand::Transition {
                mip_level: None,
                old_layout: LAYOUT_TRANSFER_DST_OPTIMAL,
                new_layout: LAYOUT_SHADER_READ_ONLY_OPTIMAL,
            },
        );
        return commands;
    }
    let mut mip_width = width;
    let mut mip_height = height;
    let mut i: u32 = 1;
    while i < mip_levels
        invariant
            1 <= i <= mip_levels,
            mipmapping,
            width >= 1,
            height >= 1,
            mip_width == spec_mip_size(width as int, (i - 1) as nat),
            mip_height == spec_mip_size(height as int, (i - 1) as nat),
            commands@.len() == 2 * i,
            forall|n: int|
                0 <= n < commands@.len() ==> commands@[n] == spec_upload_command(
                    width,
                    height,
                    mipmapping,
                    mip_levels,
                    n,
                ),
        decreases mip_levels - i,
    {
        proof {
            lemma_mip_size_bounds(width as int, (i - 1) as nat);
            lemma_mip_size_bounds(height as int, (i - 1) as nat);
            lemma_mip_size_bounds(width as int, i as nat);
            lemma_mip_size_bounds(height as int, i as nat);
        }
        let next_width = next_mip_size(mip_width);
        let next_height = next_mip_size(mip_height);
        commands.push(
            UploadCommand::Transition {
                mip_level: Some(i - 1),
                old_layout: LAYOUT_TRANSFER_DST_OPTIMAL,
                new_layout: LAYOUT_TRANSFER_SRC_OPTIMAL,
            },
        );
        commands.push(
            UploadCommand::Blit {
                src_level: i - 1,
                src_size: (mip_width, mip_height),
                dst_level: i,
                dst_size: (next_width, next_height),
            },
        );
        proof {
            assert((2 * i as int - 2) / 2 == i - 1);
            assert((2 * i as int + 1 - 2) / 2 == i - 1);
        }
        mip_width = next_width;
        mip_height = next_height;
        i = i + 1;
    }
    commands.push(
        UploadCommand::Transition {
            mip_level: Some(mip_levels - 1),
            old_layout: LAYOUT_TRANSFER_DST_OPTIMAL,
            new_layout: LAYOUT_TRANSFER_SRC_OPTIMAL,
        },
    );
    commands.push(
        UploadCommand::Transition {
            mip_level: None,
            old_layout: LAYOUT_TRANSFER_SRC_OPTIMAL,
            new_layout: LAYOUT_SHADER_READ_ONLY_OPTIMAL,
        },
    );
    commands
}

} // verus!
