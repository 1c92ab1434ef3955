use vstd::prelude::*;

verus! {

/// One range of input configurations a capture device offers.
#[derive(Debug, Clone, Copy, PartialEq, Eq, Structural)]
pub struct CaptureRange {
    /// Whether the range delivers 32-bit float samples.
    pub is_f32: bool,
    pub min_rate: u32,
    pub max_rate: u32,
}

/// The range can capture 32-bit float samples at `target` Hz.
pub open spec fn captures_at(r: CaptureRange, target: u32) -> bool {
    r.is_f32 && r.min_rate <= target <= r.max_rate
}

/// The first offered range that captures 32-bit float samples at `target` Hz.
/// `None` means the device's default configuration is used and the audio is
/// resampled afterwards.
pub fn choose_capture_range(ranges: &[CaptureRange], target: u32) -> (r: Option<usize>)
    ensures
        match r {
            Some(i) => {
                &&& i < ranges@.len()
                &&& captures_at(ranges@[i as int], target)
                &&& forall|j: int| 0 <= j < i ==> !captures_at(#[trigger] ranges@[j], target)
            },
            None => forall|j: int| 0 <= j < ranges@.len() ==> !captures_at(#[trigger] ranges@[j], target),
        },
{
    let mut i: usize = 0;
    while i < ranges.len()
        invariant
            i <= ranges@.len(),
            forall|j: int| 0 <= j < i ==> !captures_at(#[trigger] ranges@[j], target),
        decreases ranges@.len() - i,
    {
        let r = ranges[i];
        if r.is_f32 && r.min_rate <= target && target <= r.max_rate {
            return Some(i);
        }
        i = i + 1;
    }
    None
}

} // verus!
