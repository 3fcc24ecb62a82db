//! The fixed band plan of the graphic equalizer.
//!
//! The equalizer has ten bands at fixed center frequencies. A filter bank is
//! built from a list of gains, one per band and in band order; the stage for
//! a gain sits at the center frequency with the same index.

use vstd::prelude::*;

verus! {

/// Number of equalizer bands.
pub const BAND_COUNT: usize = 10;

/// Center frequencies of the bands in hertz, in band order.
pub open spec fn band_centers() -> Seq<u32> {
    seq![32u32, 64u32, 125u32, 250u32, 500u32, 1000u32, 2000u32, 4000u32, 8000u32, 16000u32]
}

/// Number of filter stages built for `gain_count` gains: one per gain, and
/// no more than there are bands.
pub open spec fn stage_count(gain_count: nat) -> nat {
    if gain_count <= BAND_COUNT {
        gain_count
    } else {
        BAND_COUNT as nat
    }
}

/// Center frequencies of all bands in hertz, in band order.
pub fn center_frequencies() -> (centers: Vec<u32>)
    ensures
        centers@ == band_centers(),
{
    let centers: Vec<u32> = vec![
        32u32,
        64u32,
        125u32,
        250u32,
        500u32,
        1000u32,
        2000u32,
        4000u32,
        8000u32,
        16000u32,
    ];
    assert(centers@ =~= band_centers());
    centers
}

/// Center frequencies of the stages of a filter bank built from
/// `gain_count` gains: stage `i` shapes band `i`, and gains beyond the last
/// band get no stage.
pub fn stage_frequencies(gain_count: usize) -> (stages: Vec<u32>)
    ensures
        stages@ == band_centers().take(stage_count(gain_count as nat) as int),
        stages@.len() == stage_count(gain_count as nat),
{
    let centers: Vec<u32> = center_frequencies();
    let count: usize = if gain_count <= BAND_COUNT {
        gain_count
    } else {
        BAND_COUNT
    };
    let mut stages: Vec<u32> = Vec::new();
    let mut index: usize = 0;
    while index < count
        invariant
            index <= count <= BAND_COUNT,
            centers@ == band_centers(),
            centers@.len() == BAND_COUNT,
            stages@ == band_centers().take(index as int),
        decreases count - index,
    {
        stages.push(centers[index]);
        index = index + 1;
        assert(stages@ =~= band_centers().take(index as int));
    }
    stages
}

/// The bands run from low to high: each center frequency lies above the
/// one before it and is at most twice as high.
pub proof fn law_bands_ascend_by_octaves(band: int)
    requires
        0 < band < BAND_COUNT,
    ensures
        band_centers().len() == BAND_COUNT,
        band_centers()[band - 1] < band_centers()[band] <= 2 * band_centers()[band - 1],
{
}

} // verus!
