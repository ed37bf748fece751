//! Height-bucketed layout profiles.
//!
//! The terminal height is bucketed into an ordered partition of the
//! whole range, inclusive on the lower bound and exclusive on the
//! upper one, so every height falls into exactly one bucket. The
//! smallest bucket yields a degenerate profile that shows only a
//! "terminal too small" notice; each bucket upward adds one unit of
//! top and bottom padding, and the taller buckets also reveal the
//! optional one-hour change field.

use vstd::prelude::*;

verus! {

/// Spacing and field-visibility configuration for one height bucket.
#[derive(Clone, Copy, PartialEq, Eq, Structural, Debug)]
pub struct LayoutProfile {
    /// Blank rows reserved above the text body inside the info pane.
    pub leading_blank_lines: u16,
    /// Blank rows reserved below the text body inside the info pane.
    pub trailing_blank_lines: u16,
    /// Whether the optional one-hour change field is shown.
    pub show_change_1h: bool,
    /// Whether the terminal is too small for the dashboard, so only a
    /// notice is drawn and the info and image panels are suppressed.
    pub too_small: bool,
}

/// A data field the dashboard can display.
#[derive(Clone, Copy, PartialEq, Eq, Structural, Debug)]
pub enum Field {
    Price,
    Change24h,
    Change1h,
}

/// Number of height buckets.
pub open spec fn bucket_count() -> nat {
    8
}

/// Inclusive lower bound of each bucket; bounds are strictly
/// increasing, and bucket i ends where bucket i + 1 begins (the top
/// bucket is unbounded above).
pub open spec fn bucket_lo(i: nat) -> nat {
    if i == 0 {
        0
    } else if i == 1 {
        20
    } else if i == 2 {
        24
    } else if i == 3 {
        26
    } else if i == 4 {
        27
    } else if i == 5 {
        34
    } else if i == 6 {
        45
    } else {
        55
    }
}

/// The bucket a height falls into.
pub open spec fn bucket_of(h: nat) -> nat {
    if h < 20 {
        0
    } else if h < 24 {
        1
    } else if h < 26 {
        2
    } else if h < 27 {
        3
    } else if h < 34 {
        4
    } else if h < 45 {
        5
    } else if h < 55 {
        6
    } else {
        7
    }
}

/// The profile of each bucket: bucket 0 is degenerate; every bucket
/// upward adds one unit of padding; buckets 5 and above (heights of
/// 34 and up) reveal the one-hour change.
pub open spec fn profile_of_bucket(i: nat) -> LayoutProfile {
    if i == 0 {
        LayoutProfile {
            leading_blank_lines: 0,
            trailing_blank_lines: 0,
            show_change_1h: false,
            too_small: true,
        }
    } else {
        LayoutProfile {
            leading_blank_lines: (i - 1) as u16,
            trailing_blank_lines: (i - 1) as u16,
            show_change_1h: i >= 5,
            too_small: false,
        }
    }
}

/// The profile selected for a height.
pub open spec fn spec_profile(h: nat) -> LayoutProfile {
    profile_of_bucket(bucket_of(h))
}

/// The set of fields a profile makes visible.
pub open spec fn visible_fields(p: LayoutProfile) -> Set<Field> {
    if p.too_small {
        Set::empty()
    } else if p.show_change_1h {
        set![Field::Price, Field::Change24h, Field::Change1h]
    } else {
        set![Field::Price, Field::Change24h]
    }
}

/// Maps a terminal height to its layout profile. Total: defined for
/// every height, with no precondition.
pub fn select(height: u16) -> (p: LayoutProfile)
    ensures
        p == spec_profile(height as nat),
{
    if height < 20 {
        LayoutProfile {
            leading_blank_lines: 0,
            trailing_blank_lines: 0,
            show_change_1h: false,
            too_small: true,
        }
    } else {
        let bucket: u16 = if height < 24 {
            1
        } else if height < 26 {
            2
        } else if height < 27 {
            3
        } else if height < 34 {
            4
        } else if height < 45 {
            5
        } else if height < 55 {
            6
        } else {
            7
        };
        LayoutProfile {
            leading_blank_lines: bucket - 1,
            trailing_blank_lines: bucket - 1,
            show_change_1h: bucket >= 5,
            too_small: false,
        }
    }
}

/// The buckets partition the heights: every height lies at or above
/// the lower bound of its bucket, below the lower bound of the next
/// one, and in no other bucket.
pub proof fn lemma_buckets_partition(h: nat)
    ensures
        bucket_of(h) < bucket_count(),
        bucket_lo(bucket_of(h)) <= h,
        bucket_of(h) + 1 < bucket_count() ==> h < bucket_lo(bucket_of(h) + 1),
        forall|i: nat|
            i < bucket_count() && #[trigger] bucket_lo(i) <= h && (i + 1 < bucket_count() ==> h
                < bucket_lo(i + 1)) ==> i == bucket_of(h),
{
}

/// Each bucket above the degenerate one adds exactly one unit of top
/// and bottom padding over its predecessor, keeping the info block
/// centered as the panel grows.
pub proof fn lemma_padding_grows_by_bucket(i: nat)
    requires
        1 <= i,
        i + 1 < bucket_count(),
    ensures
        profile_of_bucket(i + 1).leading_blank_lines == profile_of_bucket(i).leading_blank_lines
            + 1,
        profile_of_bucket(i + 1).trailing_blank_lines == profile_of_bucket(i).trailing_blank_lines
            + 1,
{
}

/// Field visibility is monotonic in height: every field visible at a
/// height stays visible at every greater height.
pub proof fn lemma_visibility_monotone(h1: nat, h2: nat)
    requires
        h1 <= h2,
    ensures
        visible_fields(spec_profile(h1)).subset_of(visible_fields(spec_profile(h2))),
{
    let p1 = spec_profile(h1);
    let p2 = spec_profile(h2);
    assert(visible_fields(p1).subset_of(visible_fields(p2))) by {
        if !p1.too_small {
            assert(!p2.too_small);
            if p1.show_change_1h {
                assert(p2.show_change_1h);
            }
            assert forall|f: Field| visible_fields(p1).contains(f) implies visible_fields(
                p2,
            ).contains(f) by {}
        }
    }
}

/// Selection is deterministic: the profile is a function of the height
/// alone, so two results for one height are identical.
pub proof fn lemma_select_deterministic(h: u16, p1: LayoutProfile, p2: LayoutProfile)
    requires
        p1 == spec_profile(h as nat),
        p2 == spec_profile(h as nat),
    ensures
        p1 == p2,
{
}

} // verus!
