//! Integer model of the mixer volume.
//!
//! The mixer speaks millibels (hundredths of a decibel); the model keeps
//! the range and the current level as plain integers and derives from
//! them the step targets and a normalized loudness for the UI gauge.
//! The normalized curve is a replaceable policy: this one is the
//! monotone linear map of the range onto `0 ..= 1000` per mille, with 0
//! exactly at the bottom of the range and 1000 exactly at the top.

use vstd::prelude::*;
use vstd::arithmetic::mul::{lemma_mul_inequality, lemma_mul_upper_bound, lemma_mul_is_commutative};
use vstd::arithmetic::div_mod::{lemma_div_is_ordered, lemma_div_pos_is_pos, lemma_div_multiples_vanish};
use crate::text::str_eq;

verus! {

/// Widest magnitude, in millibels, that the model accepts from a mixer.
/// Real ranges are a few thousand; the bound keeps every derived
/// computation inside `i64`.
pub const MB_LIMIT: i64 = 10_000_000;

/// Largest number of volume steps a single operation may take.
pub const STEP_LIMIT: u32 = 10_000;

/// The mixer state as read: playback range and current level, in
/// millibels.
pub struct VolumeModel {
    /// Bottom of the playback range; negative on a sane mixer.
    pub min_mb: i64,
    /// Top of the playback range.
    pub max_mb: i64,
    /// Current level, inside the range.
    pub current_mb: i64,
}

impl VolumeModel {
    /// A sane mixer reading: a negative bottom, a real range, the level
    /// inside it, and magnitudes a mixer can actually report.
    pub open spec fn wf(self) -> bool {
        &&& -MB_LIMIT <= self.min_mb < 0
        &&& self.min_mb < self.max_mb <= MB_LIMIT
        &&& self.min_mb <= self.current_mb <= self.max_mb
    }

    /// The state before the first mixer read.
    pub fn new() -> (r: Self)
        ensures
            r.min_mb == 0,
            r.max_mb == 0,
            r.current_mb == 0,
    {
        VolumeModel { min_mb: 0, max_mb: 0, current_mb: 0 }
    }

    /// Exec check of `wf`.
    pub fn is_wf(&self) -> (r: bool)
        ensures
            r == self.wf(),
    {
        -MB_LIMIT <= self.min_mb && self.min_mb < 0 && self.min_mb < self.max_mb
            && self.max_mb <= MB_LIMIT && self.min_mb <= self.current_mb
            && self.current_mb <= self.max_mb
    }

    /// Replaces the whole state with a fresh mixer reading.
    pub fn update(&mut self, min_mb: i64, max_mb: i64, current_mb: i64)
        ensures
            final(self).min_mb == min_mb,
            final(self).max_mb == max_mb,
            final(self).current_mb == current_mb,
    {
        self.min_mb = min_mb;
        self.max_mb = max_mb;
        self.current_mb = current_mb;
    }

    /// Size of one volume step in millibels: a hundredth of the distance
    /// from silence to the bottom of the range, truncated.
    pub open spec fn step_mb(self, num_steps: u32) -> int {
        (num_steps * (-self.min_mb)) / 100
    }

    /// The millibel level to ask of the mixer for `num_steps` up, or
    /// `None` when the state is not a sane reading or the level is
    /// already at or above silence (the zero-millibel mark), where the
    /// reference stops raising.
    pub fn increment_target(&self, num_steps: u32) -> (r: Option<i64>)
        requires
            num_steps <= STEP_LIMIT,
        ensures
            r == if self.wf() && self.current_mb < 0 {
                Some((self.current_mb + self.step_mb(num_steps)) as i64)
            } else {
                None::<i64>
            },
    {
        if !self.is_wf() || self.current_mb >= 0 {
            return None;
        }
        let span: u64 = (-self.min_mb) as u64;
        proof {
            lemma_mul_upper_bound(num_steps as int, STEP_LIMIT as int, span as int, MB_LIMIT as int);
        }
        let delta: u64 = (num_steps as u64) * span / 100;
        Some(self.current_mb + (delta as i64))
    }

    /// The millibel level to ask of the mixer for `num_steps` down, or
    /// `None` when the state is not a sane reading or the level is
    /// already at or below the bottom of the range.
    pub fn decrement_target(&self, num_steps: u32) -> (r: Option<i64>)
        requires
            num_steps <= STEP_LIMIT,
        ensures
            r == if self.wf() && self.current_mb > self.min_mb {
                Some((self.current_mb - self.step_mb(num_steps)) as i64)
            } else {
                None::<i64>
            },
    {
        if !self.is_wf() || self.current_mb <= self.min_mb {
            return None;
        }
        let span: u64 = (-self.min_mb) as u64;
        proof {
            lemma_mul_upper_bound(num_steps as int, STEP_LIMIT as int, span as int, MB_LIMIT as int);
        }
        let delta: u64 = (num_steps as u64) * span / 100;
        Some(self.current_mb - (delta as i64))
    }

    /// Normalized loudness in per mille of the range: the monotone map
    /// with 0 at the bottom of the range and 1000 at the top.  Always in
    /// `0 ..= 1000` for a sane reading.
    pub fn loudness_permille(&self) -> (r: u64)
        requires
            self.wf(),
        ensures
            r == (self.current_mb - self.min_mb) * 1000 / (self.max_mb - self.min_mb),
            r <= 1000,
            self.current_mb == self.min_mb ==> r == 0,
            self.current_mb == self.max_mb ==> r == 1000,
    {
        proof {
            let gap = self.current_mb - self.min_mb;
            let deni = self.max_mb - self.min_mb;
            lemma_mul_upper_bound(gap, 2 * MB_LIMIT, 1000, 1000);
            lemma_mul_inequality(gap, deni, 1000);
            lemma_div_is_ordered(gap * 1000, deni * 1000, deni);
            lemma_div_pos_is_pos(gap * 1000, deni);
            lemma_div_multiples_vanish(1000, deni);
            lemma_mul_is_commutative(deni, 1000);
        }
        let num: u64 = ((self.current_mb - self.min_mb) as u64) * 1000;
        let den: u64 = (self.max_mb - self.min_mb) as u64;
        num / den
    }
}

/// The loudness curve is monotone in the level: within one range, a
/// higher level never reads as quieter.
pub proof fn lemma_loudness_monotone(a: VolumeModel, b: VolumeModel)
    requires
        a.wf(),
        b.wf(),
        a.min_mb == b.min_mb,
        a.max_mb == b.max_mb,
        a.current_mb <= b.current_mb,
    ensures
        (a.current_mb - a.min_mb) * 1000 / (a.max_mb - a.min_mb)
            <= (b.current_mb - b.min_mb) * 1000 / (b.max_mb - b.min_mb),
{
    lemma_mul_inequality(a.current_mb - a.min_mb, b.current_mb - b.min_mb, 1000);
    lemma_div_is_ordered((a.current_mb - a.min_mb) * 1000, (b.current_mb - b.min_mb) * 1000,
        a.max_mb - a.min_mb);
}

/// The mixer control whose events mean the volume changed.
pub fn is_volume_event(element_name: &str) -> (r: bool)
    ensures
        r == (element_name@ == "Master Playback Volume"@),
{
    str_eq(element_name, "Master Playback Volume")
}

} // verus!
