//! The shared time reference from which every timestamp is derived.

use std::time::Duration;
use std::time::Instant;
use vstd::prelude::*;

verus! {

/// `std::time::Instant`, carried through as an opaque value.
#[verifier::external_type_specification]
#[verifier::external_body]
pub struct ExInstant(Instant);

/// The largest timestamp: all 63 value bits of an `i64` set.
pub const PTS_MASK: u128 = 0x7fff_ffff_ffff_ffff;

/// The timestamp that stands for `micros` microseconds since the origin:
/// the low 63 bits of the count.
pub open spec fn pts_of_micros(micros: u128) -> i64 {
    (micros & PTS_MASK) as i64
}

/// Masks a microsecond count to the non-negative range of an `i64`.
pub fn pts_from_micros(micros: u128) -> (pts: i64)
    ensures
        pts == pts_of_micros(micros),
        0 <= pts,
        pts as int == micros as int % 0x8000_0000_0000_0000,
{
    let masked: u128 = micros & PTS_MASK;
    assert(masked <= 0x7fff_ffff_ffff_ffff && masked == micros % 0x8000_0000_0000_0000) by (bit_vector)
        requires
            masked == micros & 0x7fff_ffff_ffff_ffff,
    ;
    masked as i64
}

/// A unit of time as a fraction of a second.
#[derive(Clone, Copy, Debug, PartialEq, Eq, Structural)]
pub struct TimeBase {
    pub numerator: i32,
    pub denominator: i32,
}

/// The time base of every timestamp before a container rescales it:
/// microseconds.
pub fn stream_time_base() -> (base: TimeBase)
    ensures
        base == (TimeBase { numerator: 1, denominator: 1_000_000 }),
{
    TimeBase { numerator: 1, denominator: 1_000_000 }
}

/// `Instant::elapsed`: the time that has passed since `reference`. Nothing is
/// claimed of the result, which depends on the clock.
#[verifier::external_body]
fn elapsed_since(reference: &Instant) -> (elapsed: Duration) {
    reference.elapsed()
}

/// `Duration::as_micros`: the whole microseconds in `elapsed`. Nothing is
/// claimed of the result.
#[verifier::external_body]
fn whole_micros(elapsed: &Duration) -> (micros: u128) {
    elapsed.as_micros()
}

/// A monotonic clock origin. It is copied into every actor and never changes.
#[derive(Copy, Clone, Debug)]
pub struct SlickscreenTime {
    reference: Instant,
}

impl SlickscreenTime {
    /// The origin that timestamps are measured from.
    pub closed spec fn origin(&self) -> Instant {
        self.reference
    }

    /// A time reference with `reference` as its origin.
    pub fn new(reference: Instant) -> (time: Self)
        ensures
            time.origin() == reference,
    {
        SlickscreenTime { reference }
    }

    /// The microseconds elapsed since the origin, as a timestamp. Whatever the
    /// clock reads, the timestamp is that reading masked, and so not negative.
    #[inline]
    pub fn pts_now(&self) -> (pts: i64)
        ensures
            0 <= pts,
            exists|micros: u128| pts == pts_of_micros(micros),
    {
        let elapsed = elapsed_since(&self.reference);
        pts_from_micros(whole_micros(&elapsed))
    }
}

/// Masking keeps the order of two clock readings, as long as the later one
/// still fits in 63 bits.
pub proof fn lemma_pts_monotonic(earlier: u128, later: u128)
    requires
        earlier <= later,
        later <= PTS_MASK,
    ensures
        pts_of_micros(earlier) <= pts_of_micros(later),
        pts_of_micros(earlier) == earlier,
        pts_of_micros(later) == later,
{
    assert(earlier & 0x7fff_ffff_ffff_ffff == earlier) by (bit_vector)
        requires
            earlier <= 0x7fff_ffff_ffff_ffffu128,
    ;
    assert(later & 0x7fff_ffff_ffff_ffff == later) by (bit_vector)
        requires
            later <= 0x7fff_ffff_ffff_ffffu128,
    ;
}

/// Whether no timestamp in `pts` is smaller than one before it.
pub open spec fn non_decreasing(pts: Seq<i64>) -> bool {
    forall|i: int, j: int| 0 <= i <= j < pts.len() ==> pts[i] <= pts[j]
}

/// Whether no clock reading in `readings` is smaller than one before it, and
/// all of them fit in 63 bits.
pub open spec fn steady_clock(readings: Seq<u128>) -> bool {
    &&& forall|i: int, j: int| 0 <= i <= j < readings.len() ==> readings[i] <= readings[j]
    &&& forall|i: int| 0 <= i < readings.len() ==> readings[i] <= PTS_MASK
}

/// The timestamps that a stream carries when its stage reads the clock once
/// per event and emits an item, stamped with that reading, for the events
/// marked in `taken`.
pub open spec fn stamps(readings: Seq<u128>, taken: Seq<bool>) -> Seq<i64>
    decreases readings.len(),
{
    if readings.len() == 0 || taken.len() == 0 {
        Seq::empty()
    } else {
        let before = stamps(readings.drop_last(), taken.drop_last());
        if taken.last() {
            before.push(pts_of_micros(readings.last()))
        } else {
            before
        }
    }
}

/// On a steady clock the timestamps of a stream never go back, whichever
/// events emit an item; and there are as many timestamps as emitting events.
pub proof fn lemma_stamps_ordered(readings: Seq<u128>, taken: Seq<bool>)
    requires
        readings.len() == taken.len(),
        steady_clock(readings),
    ensures
        non_decreasing(stamps(readings, taken)),
        stamps(readings, taken).len() == taken.filter(|t: bool| t).len(),
        forall|k: int|
            0 <= k < stamps(readings, taken).len() ==> 0 <= #[trigger] stamps(readings, taken)[k]
                <= readings.last(),
    decreases readings.len(),
{
    if readings.len() == 0 {
        assert(taken =~= Seq::empty());
        assert(taken.filter(|t: bool| t) =~= Seq::empty()) by {
            reveal(Seq::filter);
        }
    } else {
        let head = readings.drop_last();
        let head_taken = taken.drop_last();
        lemma_stamps_ordered(head, head_taken);
        let before = stamps(head, head_taken);
        lemma_pts_monotonic(readings.last(), readings.last());
        assert(taken.filter(|t: bool| t) == if taken.last() {
            head_taken.filter(|t: bool| t).push(taken.last())
        } else {
            head_taken.filter(|t: bool| t)
        }) by {
            reveal(Seq::filter);
        }
        assert forall|k: int| 0 <= k < before.len() implies #[trigger] before[k]
            <= readings.last() by {
            assert(head.last() == readings[readings.len() - 2]);
        }
    }
}

} // verus!
