//! A pause-aware playback clock.
//!
//! The clock accumulates play time between readings of a monotonic wall
//! clock. It never advances while paused and never leaves the range from
//! zero to the track's duration.

use vstd::prelude::*;

verus! {

/// The smaller of two naturals.
pub open spec fn lesser(a: nat, b: nat) -> nat {
    if a <= b {
        a
    } else {
        b
    }
}

/// `target` brought into the range `0 ..= limit`.
pub open spec fn clamped(target: int, limit: nat) -> nat {
    if target <= 0 {
        0
    } else if target >= limit {
        limit
    } else {
        target as nat
    }
}

/// What a playback clock is, as mathematics. All quantities are nanoseconds.
pub struct ClockModel {
    /// Play time accumulated up to `anchor`.
    pub position: nat,
    /// The wall-clock reading at which `position` was last brought up to date.
    pub anchor: nat,
    /// Whether play time is currently accumulating.
    pub playing: bool,
    /// Length of the track; `position` never exceeds it.
    pub track_duration: nat,
}

impl ClockModel {
    /// The position stays within the track.
    pub open spec fn wf(self) -> bool {
        self.position <= self.track_duration
    }

    /// Wall-clock time that passed between the anchor and `now`; zero when
    /// `now` lies before the anchor.
    pub open spec fn elapsed(self, now: nat) -> nat {
        if now >= self.anchor {
            (now - self.anchor) as nat
        } else {
            0
        }
    }

    /// The position a query at `now` reports.
    pub open spec fn position_at(self, now: nat) -> nat {
        if self.playing {
            lesser(self.position + self.elapsed(now), self.track_duration)
        } else {
            self.position
        }
    }

    /// The clock after a position query at `now`: a playing clock folds the
    /// elapsed time into its position and re-anchors; a paused one is untouched.
    pub open spec fn advanced(self, now: nat) -> ClockModel {
        if self.playing {
            ClockModel { position: self.position_at(now), anchor: now, ..self }
        } else {
            self
        }
    }

    /// The clock after entering the playing state at `now`.
    pub open spec fn started(self, now: nat) -> ClockModel {
        ClockModel { playing: true, anchor: now, ..self }
    }

    /// The clock after entering the paused state at `now`: elapsed time is
    /// flushed first.
    pub open spec fn halted(self, now: nat) -> ClockModel {
        ClockModel { playing: false, ..self.advanced(now) }
    }

    /// The clock after a jump to `target` at `now`.
    pub open spec fn repositioned(self, target: int, now: nat) -> ClockModel {
        ClockModel {
            position: clamped(target, self.track_duration),
            anchor: if self.playing {
                now
            } else {
                self.anchor
            },
            ..self
        }
    }
}

/// A playback clock over nanosecond readings of a monotonic wall clock.
#[derive(Clone, Copy, Debug)]
pub struct PlaybackClock {
    accumulated: u128,
    last_sample: u128,
    playing: bool,
    track_duration: u128,
}

impl View for PlaybackClock {
    type V = ClockModel;

    closed spec fn view(&self) -> ClockModel {
        ClockModel {
            position: self.accumulated as nat,
            anchor: self.last_sample as nat,
            playing: self.playing,
            track_duration: self.track_duration as nat,
        }
    }
}

impl PlaybackClock {
    #[verifier::type_invariant]
    closed spec fn within_track(self) -> bool {
        self.accumulated <= self.track_duration
    }

    /// A paused clock at position zero for a track of `track_duration`
    /// nanoseconds, anchored at the reading `now`.
    pub fn new(track_duration: u128, now: u128) -> (clock: PlaybackClock)
        ensures
            clock@ == (ClockModel {
                position: 0,
                anchor: now as nat,
                playing: false,
                track_duration: track_duration as nat,
            }),
            clock@.wf(),
    {
        PlaybackClock { accumulated: 0, last_sample: now, playing: false, track_duration }
    }

    /// Whether play time is accumulating.
    pub fn is_playing(&self) -> (playing: bool)
        ensures
            playing == self@.playing,
    {
        self.playing
    }

    /// Length of the track in nanoseconds.
    pub fn track_duration(&self) -> (duration: u128)
        ensures
            duration == self@.track_duration,
    {
        self.track_duration
    }

    /// Reports the playback position at the reading `now`.
    ///
    /// While playing, the time since the previous reading is added to the
    /// position, which saturates at the track's duration, and `now` becomes
    /// the new anchor. While paused, nothing changes. A reading that lies
    /// before the anchor counts as no time passed.
    pub fn position(&mut self, now: u128) -> (position: u128)
        ensures
            final(self)@ == old(self)@.advanced(now as nat),
            position == old(self)@.position_at(now as nat),
            position == final(self)@.position,
            position >= old(self)@.position,
            position <= old(self)@.track_duration,
            !old(self)@.playing ==> position == old(self)@.position,
            final(self)@.wf(),
    {
        proof {
            use_type_invariant(&*self);
        }
        if self.playing {
            let elapsed: u128 = if now >= self.last_sample {
                now - self.last_sample
            } else {
                0
            };
            let room: u128 = self.track_duration - self.accumulated;
            if elapsed >= room {
                self.accumulated = self.track_duration;
            } else {
                self.accumulated = self.accumulated + elapsed;
            }
            self.last_sample = now;
        }
        self.accumulated
    }

    /// Enters the playing state at the reading `now`. The position is kept;
    /// time starts to accumulate from `now`.
    pub fn transition_to_playing(&mut self, now: u128)
        ensures
            final(self)@ == old(self)@.started(now as nat),
            final(self)@.wf(),
    {
        proof {
            use_type_invariant(&*self);
        }
        self.playing = true;
        self.last_sample = now;
    }

    /// Enters the paused state at the reading `now`, after folding the time
    /// played since the previous reading into the position.
    pub fn transition_to_paused(&mut self, now: u128)
        ensures
            final(self)@ == old(self)@.halted(now as nat),
            final(self)@.wf(),
    {
        let _ = self.position(now);
        self.playing = false;
    }

    /// Jumps to `target`, brought into the track's range. A playing clock is
    /// re-anchored at `now`; a paused one keeps its anchor.
    pub fn seek_to(&mut self, target: u128, now: u128)
        ensures
            final(self)@ == old(self)@.repositioned(target as int, now as nat),
            final(self)@.position == lesser(target as nat, old(self)@.track_duration),
            final(self)@.wf(),
    {
        if target >= self.track_duration {
            self.accumulated = self.track_duration;
        } else {
            self.accumulated = target;
        }
        if self.playing {
            self.last_sample = now;
        }
    }
}

/// The position never leaves the track, whatever happens to the clock.
pub proof fn law_position_stays_within_track(clock: ClockModel, target: int, now: nat)
    requires
        clock.wf(),
    ensures
        clock.position_at(now) <= clock.track_duration,
        clock.advanced(now).wf(),
        clock.started(now).wf(),
        clock.halted(now).wf(),
        clock.repositioned(target, now).wf(),
{
}

/// A paused clock does not move, however much wall-clock time passes.
pub proof fn law_paused_clock_is_frozen(clock: ClockModel, now: nat)
    requires
        !clock.playing,
    ensures
        clock.position_at(now) == clock.position,
        clock.advanced(now) == clock,
{
}

/// The position reported never decreases from one reading to a later one,
/// whether or not a query was made in between.
pub proof fn law_position_never_decreases(clock: ClockModel, earlier: nat, later: nat)
    requires
        clock.wf(),
        earlier <= later,
    ensures
        clock.position <= clock.position_at(earlier) <= clock.position_at(later),
        clock.advanced(earlier).position <= clock.advanced(earlier).position_at(later),
{
}

/// Querying in between changes nothing about what a later query reports:
/// with readings in order, time is neither lost nor counted twice.
pub proof fn law_queries_do_not_drift(clock: ClockModel, first: nat, second: nat)
    requires
        clock.wf(),
        clock.anchor <= first <= second,
    ensures
        clock.advanced(first).position_at(second) == clock.position_at(second),
        clock.advanced(first).advanced(second) == clock.advanced(second),
{
}

/// Time spent paused is never counted: after a pause at `paused_at` and a
/// resume at `resumed_at`, a query reports the position held at the pause
/// plus the time since the resume, up to the track's duration.
pub proof fn law_paused_interval_is_not_counted(
    clock: ClockModel,
    paused_at: nat,
    resumed_at: nat,
    now: nat,
)
    requires
        clock.wf(),
        resumed_at <= now,
    ensures
        clock.halted(paused_at).started(resumed_at).position_at(now) == lesser(
            clock.position_at(paused_at) + (now - resumed_at) as nat,
            clock.track_duration,
        ),
{
}

} // verus!
