//! Transport control: play, pause, seek and equalizer toggle.
//!
//! The controller owns the playback clock and the equalizer flag. Each
//! command updates them and answers with the action the caller has to carry
//! out on the output sink, so that sink, clock and flag stay consistent.

use crate::clock::{clamped, lesser, ClockModel, PlaybackClock};
use crate::wall::WallClock;
use vstd::prelude::*;

verus! {

/// Where the transport stands.
#[derive(Clone, Copy, Debug, PartialEq, Eq, Structural)]
pub enum TransportState {
    /// Before the first `play`.
    Stopped,
    /// Samples are being consumed and the clock runs.
    Playing,
    /// Output is suspended and the clock is frozen.
    Paused,
}

/// The shape of the sample pipeline feeding the sink.
#[derive(Clone, Copy, Debug, PartialEq, Eq, Structural)]
pub enum PipelineShape {
    /// Decoded samples go to the sink unchanged.
    Raw,
    /// Decoded samples pass through a fresh filter bank first.
    Equalized,
}

/// Where a seek should land, in nanoseconds.
#[derive(Clone, Copy, Debug, PartialEq, Eq, Structural)]
pub enum SeekRequest {
    /// An absolute position.
    To(u128),
    /// Ahead of the current position by this much.
    Forward(u128),
    /// Behind the current position by this much.
    Backward(u128),
}

impl SeekRequest {
    /// The position asked for when the playback position is `current`,
    /// before it is brought into the track's range.
    pub open spec fn target_from(self, current: nat) -> int {
        match self {
            SeekRequest::To(position) => position as int,
            SeekRequest::Forward(delta) => current + delta,
            SeekRequest::Backward(delta) => current - delta,
        }
    }
}

/// How the caller has to rebuild the pipeline after a seek or a toggle:
/// stop the sink, reopen the source, skip `skip_to` nanoseconds of samples,
/// wrap the source as `shape` says, hand it to the sink, and resume output
/// if `resume` is set.
#[derive(Clone, Copy, Debug, PartialEq, Eq, Structural)]
pub struct RebuildPlan {
    /// Position in the track, in nanoseconds, at which the new source starts.
    pub skip_to: u128,
    /// Whether the new source is wrapped in a filter bank.
    pub shape: PipelineShape,
    /// Whether the sink has to play once the new source is in place.
    pub resume: bool,
}

/// What the caller has to do on the sink after a command.
#[derive(Clone, Copy, Debug, PartialEq, Eq, Structural)]
pub enum Action {
    /// Leave the sink alone.
    Nothing,
    /// Resume sink output.
    ResumeSink,
    /// Suspend sink output.
    PauseSink,
    /// Replace the sink's source.
    Rebuild(RebuildPlan),
}

/// A command to the transport.
#[derive(Clone, Copy, Debug, PartialEq, Eq, Structural)]
pub enum Command {
    /// Start or resume playback.
    Play,
    /// Suspend playback.
    Pause,
    /// Jump to another position.
    Seek(SeekRequest),
    /// Switch the filter bank in or out.
    ToggleEqualizer,
}

/// The pipeline shape that goes with a value of the equalizer flag.
pub open spec fn shape_for(equalizer_enabled: bool) -> PipelineShape {
    if equalizer_enabled {
        PipelineShape::Equalized
    } else {
        PipelineShape::Raw
    }
}

/// What a transport controller is, as mathematics.
pub struct TransportModel {
    pub state: TransportState,
    pub clock: ClockModel,
    pub equalizer_enabled: bool,
}

impl TransportModel {
    /// The clock is within its track and runs exactly while playing, and
    /// the track's duration fits a 128-bit count of nanoseconds.
    pub open spec fn wf(self) -> bool {
        &&& self.clock.wf()
        &&& self.clock.playing <==> self.state == TransportState::Playing
        &&& self.clock.track_duration <= u128::MAX
    }

    /// The controller for a track of `track_duration` nanoseconds, before
    /// the first command.
    pub open spec fn initial(
        track_duration: nat,
        equalizer_enabled: bool,
        now: nat,
    ) -> TransportModel {
        TransportModel {
            state: TransportState::Stopped,
            clock: ClockModel { position: 0, anchor: now, playing: false, track_duration },
            equalizer_enabled,
        }
    }

    /// The playback position a query at `now` reports.
    pub open spec fn position_at(self, now: nat) -> nat {
        self.clock.position_at(now)
    }

    /// The controller after a position query at `now`.
    pub open spec fn after_query(self, now: nat) -> TransportModel {
        TransportModel { clock: self.clock.advanced(now), ..self }
    }

    /// The controller after `play` at `now`.
    pub open spec fn after_play(self, now: nat) -> TransportModel {
        if self.state == TransportState::Playing {
            self
        } else {
            TransportModel {
                state: TransportState::Playing,
                clock: self.clock.started(now),
                ..self
            }
        }
    }

    /// What `play` asks of the sink.
    pub open spec fn play_action(self) -> Action {
        if self.state == TransportState::Playing {
            Action::Nothing
        } else {
            Action::ResumeSink
        }
    }

    /// The controller after `pause` at `now`.
    pub open spec fn after_pause(self, now: nat) -> TransportModel {
        if self.state == TransportState::Playing {
            TransportModel {
                state: TransportState::Paused,
                clock: self.clock.halted(now),
                ..self
            }
        } else {
            self
        }
    }

    /// What `pause` asks of the sink.
    pub open spec fn pause_action(self) -> Action {
        if self.state == TransportState::Playing {
            Action::PauseSink
        } else {
            Action::Nothing
        }
    }

    /// Where a seek by `request` at `now` lands: the requested position,
    /// relative ones taken from the position at `now`, brought into the
    /// track's range.
    pub open spec fn seek_target(self, request: SeekRequest, now: nat) -> nat {
        clamped(request.target_from(self.position_at(now)), self.clock.track_duration)
    }

    /// The controller after its pipeline was rebuilt at position `target`.
    pub open spec fn rebuilt_at(self, target: nat, now: nat) -> TransportModel {
        TransportModel { clock: self.clock.repositioned(target as int, now), ..self }
    }

    /// The plan for rebuilding the pipeline at position `target`.
    pub open spec fn plan_at(self, target: nat) -> RebuildPlan {
        RebuildPlan {
            skip_to: target as u128,
            shape: shape_for(self.equalizer_enabled),
            resume: self.state == TransportState::Playing,
        }
    }

    /// The controller after `seek` by `request` at `now`.
    pub open spec fn after_seek(self, request: SeekRequest, now: nat) -> TransportModel {
        self.rebuilt_at(self.seek_target(request, now), now)
    }

    /// The plan that `seek` by `request` at `now` hands out.
    pub open spec fn seek_plan(self, request: SeekRequest, now: nat) -> RebuildPlan {
        self.plan_at(self.seek_target(request, now))
    }

    /// The controller with its equalizer flag flipped.
    pub open spec fn flipped(self) -> TransportModel {
        TransportModel { equalizer_enabled: !self.equalizer_enabled, ..self }
    }

    /// The controller after `toggle_equalizer` at `now`: the flag is flipped
    /// and the pipeline rebuilt in place.
    pub open spec fn after_toggle(self, now: nat) -> TransportModel {
        self.flipped().rebuilt_at(self.position_at(now), now)
    }

    /// The plan that `toggle_equalizer` at `now` hands out.
    pub open spec fn toggle_plan(self, now: nat) -> RebuildPlan {
        self.flipped().plan_at(self.position_at(now))
    }

    /// The controller after `command` at `now`.
    pub open spec fn after(self, command: Command, now: nat) -> TransportModel {
        match command {
            Command::Play => self.after_play(now),
            Command::Pause => self.after_pause(now),
            Command::Seek(request) => self.after_seek(request, now),
            Command::ToggleEqualizer => self.after_toggle(now),
        }
    }

    /// What `command` at `now` asks of the sink.
    pub open spec fn action_of(self, command: Command, now: nat) -> Action {
        match command {
            Command::Play => self.play_action(),
            Command::Pause => self.pause_action(),
            Command::Seek(request) => Action::Rebuild(self.seek_plan(request, now)),
            Command::ToggleEqualizer => Action::Rebuild(self.toggle_plan(now)),
        }
    }
}

/// Owner of the playback clock and the equalizer flag.
#[derive(Debug)]
pub struct TransportController {
    state: TransportState,
    clock: PlaybackClock,
    equalizer_enabled: bool,
}

impl View for TransportController {
    type V = TransportModel;

    closed spec fn view(&self) -> TransportModel {
        TransportModel {
            state: self.state,
            clock: self.clock@,
            equalizer_enabled: self.equalizer_enabled,
        }
    }
}

impl TransportController {
    #[verifier::type_invariant]
    closed spec fn consistent(self) -> bool {
        self@.wf()
    }

    /// A stopped controller at position zero for a track of
    /// `track_duration` nanoseconds.
    pub fn new(track_duration: u128, equalizer_enabled: bool, now: u128) -> (controller: Self)
        ensures
            controller@ == TransportModel::initial(
                track_duration as nat,
                equalizer_enabled,
                now as nat,
            ),
            controller@.wf(),
    {
        TransportController {
            state: TransportState::Stopped,
            clock: PlaybackClock::new(track_duration, now),
            equalizer_enabled,
        }
    }

    /// The state the transport is in.
    pub fn state(&self) -> (state: TransportState)
        ensures
            state == self@.state,
    {
        self.state
    }

    /// Whether output is suspended: true before the first `play` and while
    /// paused, false while playing.
    pub fn is_paused(&self) -> (paused: bool)
        ensures
            paused == (self@.state != TransportState::Playing),
    {
        self.state != TransportState::Playing
    }

    /// Whether the pipeline contains the filter bank.
    pub fn is_equalizer_enabled(&self) -> (enabled: bool)
        ensures
            enabled == self@.equalizer_enabled,
    {
        self.equalizer_enabled
    }

    /// Length of the track in nanoseconds.
    pub fn track_duration(&self) -> (duration: u128)
        ensures
            duration == self@.clock.track_duration,
    {
        self.clock.track_duration()
    }

    /// The playback position at the reading `now`. While playing this
    /// brings the clock up to date; otherwise nothing changes.
    pub fn current_position(&mut self, now: u128) -> (position: u128)
        ensures
            final(self)@ == old(self)@.after_query(now as nat),
            position == old(self)@.position_at(now as nat),
            position == final(self)@.clock.position,
            old(self)@.clock.position <= position <= old(self)@.clock.track_duration,
            old(self)@.state != TransportState::Playing ==> final(self)@ == old(self)@,
            final(self)@.wf(),
    {
        proof {
            use_type_invariant(&*self);
        }
        let mut clock = self.clock;
        let position: u128 = clock.position(now);
        *self = TransportController {
            state: self.state,
            clock,
            equalizer_enabled: self.equalizer_enabled,
        };
        position
    }

    /// Starts or resumes playback at the reading `now`.
    ///
    /// Unless already playing, the transport becomes `Playing`, the clock
    /// starts to run from `now` at the position it holds, and the sink has
    /// to resume. When already playing, nothing changes.
    pub fn play(&mut self, now: u128) -> (action: Action)
        ensures
            final(self)@ == old(self)@.after_play(now as nat),
            action == old(self)@.play_action(),
            final(self)@.wf(),
    {
        proof {
            use_type_invariant(&*self);
        }
        if self.state == TransportState::Playing {
            Action::Nothing
        } else {
            let mut clock = self.clock;
            clock.transition_to_playing(now);
            *self = TransportController {
                state: TransportState::Playing,
                clock,
                equalizer_enabled: self.equalizer_enabled,
            };
            Action::ResumeSink
        }
    }

    /// Suspends playback at the reading `now`.
    ///
    /// When playing, the time played up to `now` is folded into the
    /// position, the transport becomes `Paused`, and the sink has to pause.
    /// Otherwise nothing changes.
    pub fn pause(&mut self, now: u128) -> (action: Action)
        ensures
            final(self)@ == old(self)@.after_pause(now as nat),
            action == old(self)@.pause_action(),
            final(self)@.wf(),
    {
        proof {
            use_type_invariant(&*self);
        }
        if self.state == TransportState::Playing {
            let mut clock = self.clock;
            clock.transition_to_paused(now);
            *self = TransportController {
                state: TransportState::Paused,
                clock,
                equalizer_enabled: self.equalizer_enabled,
            };
            Action::PauseSink
        } else {
            Action::Nothing
        }
    }

    /// Moves the clock to `target`, already within the track, and plans the
    /// rebuild of the pipeline there.
    fn rebuild_at(&mut self, target: u128, now: u128) -> (plan: RebuildPlan)
        requires
            target <= old(self)@.clock.track_duration,
        ensures
            final(self)@ == old(self)@.rebuilt_at(target as nat, now as nat),
            plan == old(self)@.plan_at(target as nat),
            final(self)@.wf(),
    {
        proof {
            use_type_invariant(&*self);
        }
        let mut clock = self.clock;
        clock.seek_to(target, now);
        *self = TransportController {
            state: self.state,
            clock,
            equalizer_enabled: self.equalizer_enabled,
        };
        RebuildPlan {
            skip_to: target,
            shape: if self.equalizer_enabled {
                PipelineShape::Equalized
            } else {
                PipelineShape::Raw
            },
            resume: self.state == TransportState::Playing,
        }
    }

    /// Where a seek by `request` at the reading `now` would land, without
    /// changing anything.
    pub fn seek_target(&self, request: SeekRequest, now: u128) -> (target: u128)
        ensures
            target == self@.seek_target(request, now as nat),
            target <= self@.clock.track_duration,
    {
        proof {
            use_type_invariant(self);
        }
        let mut clock = self.clock;
        let current: u128 = clock.position(now);
        let limit: u128 = self.clock.track_duration();
        match request {
            SeekRequest::To(position) => if position >= limit {
                limit
            } else {
                position
            },
            SeekRequest::Forward(delta) => if delta >= limit - current {
                limit
            } else {
                current + delta
            },
            SeekRequest::Backward(delta) => if delta >= current {
                0
            } else {
                current - delta
            },
        }
    }

    /// Seeks at the reading `now`.
    ///
    /// The target is the requested position, a relative one taken from the
    /// position at `now`, brought into the range from zero to the track's
    /// duration. The clock is set to the target and the transport state is
    /// kept. The plan tells the caller to rebuild the pipeline at the
    /// target, in the shape the equalizer flag asks for, and to resume
    /// output exactly when the transport was playing.
    pub fn seek(&mut self, request: SeekRequest, now: u128) -> (plan: RebuildPlan)
        ensures
            final(self)@ == old(self)@.after_seek(request, now as nat),
            plan == old(self)@.seek_plan(request, now as nat),
            final(self)@.clock.position == old(self)@.seek_target(request, now as nat),
            final(self)@.position_at(now as nat) == old(self)@.seek_target(request, now as nat),
            plan.skip_to == final(self)@.clock.position,
            final(self)@.state == old(self)@.state,
            plan.resume == (old(self)@.state == TransportState::Playing),
            final(self)@.wf(),
    {
        let target: u128 = self.seek_target(request, now);
        self.rebuild_at(target, now)
    }

    /// Flips the equalizer flag at the reading `now` and rebuilds the
    /// pipeline in place.
    ///
    /// The clock is set to the position it shows at `now` and the transport
    /// state is kept. The plan's shape is the one the new flag asks for.
    pub fn toggle_equalizer(&mut self, now: u128) -> (plan: RebuildPlan)
        ensures
            final(self)@ == old(self)@.after_toggle(now as nat),
            plan == old(self)@.toggle_plan(now as nat),
            final(self)@.equalizer_enabled == !old(self)@.equalizer_enabled,
            plan.shape == shape_for(final(self)@.equalizer_enabled),
            final(self)@.clock.position == old(self)@.position_at(now as nat),
            final(self)@.state == old(self)@.state,
            plan.resume == (old(self)@.state == TransportState::Playing),
            final(self)@.wf(),
    {
        proof {
            use_type_invariant(&*self);
        }
        let mut clock = self.clock;
        let current: u128 = clock.position(now);
        *self = TransportController {
            state: self.state,
            clock: self.clock,
            equalizer_enabled: !self.equalizer_enabled,
        };
        self.rebuild_at(current, now)
    }

    /// Applies `command` at the reading `now` and answers with what the
    /// caller has to do on the sink.
    pub fn step(&mut self, command: Command, now: u128) -> (action: Action)
        ensures
            final(self)@ == old(self)@.after(command, now as nat),
            action == old(self)@.action_of(command, now as nat),
            final(self)@.wf(),
    {
        match command {
            Command::Play => self.play(now),
            Command::Pause => self.pause(now),
            Command::Seek(request) => Action::Rebuild(self.seek(request, now)),
            Command::ToggleEqualizer => Action::Rebuild(self.toggle_equalizer(now)),
        }
    }

    /// The playback position at the present reading of `wall`.
    ///
    /// Whatever the reading is, the position does not go back and stays
    /// within the track, and a transport that is not playing is left as it
    /// was.
    pub fn position_now(&mut self, wall: &WallClock) -> (position: u128)
        ensures
            exists|now: u128|
                final(self)@ == #[trigger] old(self)@.after_query(now as nat) && position == old(
                    self,
                )@.position_at(now as nat),
            position == final(self)@.clock.position,
            old(self)@.clock.position <= position <= old(self)@.clock.track_duration,
            old(self)@.state != TransportState::Playing ==> final(self)@ == old(self)@,
            final(self)@.wf(),
    {
        let now: u128 = wall.reading();
        self.current_position(now)
    }

    /// Applies `command` at the present reading of `wall` and answers with
    /// what the caller has to do on the sink.
    ///
    /// Whatever the reading is, the outcome is the one `step` gives for it.
    pub fn handle(&mut self, wall: &WallClock, command: Command) -> (action: Action)
        ensures
            exists|now: u128|
                final(self)@ == #[trigger] old(self)@.after(command, now as nat) && action == old(
                    self,
                )@.action_of(command, now as nat),
            final(self)@.wf(),
    {
        let now: u128 = wall.reading();
        self.step(command, now)
    }
}

/// A controller starts out stopped, at position zero, and well formed.
pub proof fn law_initial_state_is_consistent(
    track_duration: u128,
    equalizer_enabled: bool,
    now: nat,
)
    ensures
        TransportModel::initial(track_duration as nat, equalizer_enabled, now).wf(),
        TransportModel::initial(track_duration as nat, equalizer_enabled, now).state
            == TransportState::Stopped,
        TransportModel::initial(track_duration as nat, equalizer_enabled, now).position_at(now)
            == 0,
{
}

/// Every command and every query keeps the controller well formed and
/// leaves the track's duration alone.
pub proof fn law_commands_keep_consistency(transport: TransportModel, command: Command, now: nat)
    requires
        transport.wf(),
    ensures
        transport.after(command, now).wf(),
        transport.after_query(now).wf(),
        transport.after(command, now).clock.track_duration == transport.clock.track_duration,
        transport.after_query(now).clock.track_duration == transport.clock.track_duration,
{
}

/// `Stopped` is the state before the first `play` only: no command leads
/// back to it, and `play` always leaves the transport playing.
pub proof fn law_stopped_only_before_first_play(
    transport: TransportModel,
    command: Command,
    now: nat,
)
    ensures
        transport.after(command, now).state == TransportState::Stopped ==> transport.state
            == TransportState::Stopped && command != Command::Play,
        transport.after_play(now).state == TransportState::Playing,
        transport.after_pause(now).state != TransportState::Playing,
{
}

/// After `play` on a transport that was not playing, a query `delta`
/// nanoseconds later reports the old position plus `delta`, up to the
/// track's duration. After a following `pause`, every query reports the
/// position held at the pause, whatever the reading.
pub proof fn law_play_counts_and_pause_freezes(
    transport: TransportModel,
    started_at: nat,
    delta: nat,
    paused_at: nat,
    now: nat,
)
    requires
        transport.wf(),
        transport.state != TransportState::Playing,
    ensures
        transport.after_play(started_at).state == TransportState::Playing,
        transport.after_play(started_at).position_at(started_at + delta) == lesser(
            transport.clock.position + delta,
            transport.clock.track_duration,
        ),
        transport.after_play(started_at).after_pause(paused_at).state == TransportState::Paused,
        transport.after_play(started_at).after_pause(paused_at).position_at(now)
            == transport.after_play(started_at).position_at(paused_at),
{
}

/// Redundant commands change nothing and ask nothing of the sink.
pub proof fn law_redundant_commands_do_nothing(transport: TransportModel, now: nat)
    requires
        transport.wf(),
    ensures
        transport.state == TransportState::Playing ==> transport.after_play(now) == transport
            && transport.play_action() == Action::Nothing,
        transport.state != TransportState::Playing ==> transport.after_pause(now) == transport
            && transport.pause_action() == Action::Nothing,
{
}

/// A seek lands on the requested position brought into the track's range,
/// whatever the state before, and playback goes on afterwards exactly when
/// it was active before.
pub proof fn law_seek_lands_on_clamped_target(
    transport: TransportModel,
    request: SeekRequest,
    now: nat,
)
    requires
        transport.wf(),
    ensures
        transport.after_seek(request, now).position_at(now) == clamped(
            request.target_from(transport.position_at(now)),
            transport.clock.track_duration,
        ),
        request matches SeekRequest::To(target) ==> transport.after_seek(
            request,
            now,
        ).position_at(now) == lesser(target as nat, transport.clock.track_duration),
        transport.after_seek(request, now).state == transport.state,
        transport.after_seek(request, now).equalizer_enabled == transport.equalizer_enabled,
        transport.seek_plan(request, now).resume == (transport.state == TransportState::Playing),
        transport.seek_plan(request, now).skip_to == transport.after_seek(request, now).position_at(
            now,
        ),
        transport.seek_plan(request, now).shape == shape_for(transport.equalizer_enabled),
{
}

/// Toggling the equalizer twice restores the flag and the pipeline shape
/// and leaves the transport state as it was. The clock shows after each
/// toggle what it showed at that reading before it; a transport that is not
/// playing is restored as a whole.
pub proof fn law_toggle_twice_restores(transport: TransportModel, first: nat, second: nat)
    requires
        transport.wf(),
    ensures
        transport.after_toggle(first).equalizer_enabled == !transport.equalizer_enabled,
        transport.after_toggle(first).after_toggle(second).equalizer_enabled
            == transport.equalizer_enabled,
        transport.after_toggle(first).toggle_plan(second).shape == shape_for(
            transport.equalizer_enabled,
        ),
        transport.after_toggle(first).after_toggle(second).state == transport.state,
        transport.after_toggle(first).after_toggle(second).clock.playing
            == transport.clock.playing,
        transport.toggle_plan(first).resume == transport.clock.playing,
        transport.after_toggle(first).toggle_plan(second).resume == transport.clock.playing,
        transport.after_toggle(first).position_at(first) == transport.position_at(first),
        transport.after_toggle(first).after_toggle(second).position_at(second)
            == transport.after_toggle(first).position_at(second),
        transport.state != TransportState::Playing ==> transport.after_toggle(first).after_toggle(
            second,
        ) == transport,
        transport.clock.anchor <= first <= second ==> transport.after_toggle(first).after_toggle(
            second,
        ).position_at(second) == transport.position_at(second),
{
}

/// Every command leaves the sink's pipeline in the shape that the
/// equalizer flag asks for: a plan handed out carries the shape of the flag
/// as it stands after the command, and commands that hand out no plan do
/// not touch the flag.
pub proof fn law_pipeline_matches_flag(transport: TransportModel, command: Command, now: nat)
    requires
        transport.wf(),
    ensures
        match transport.action_of(command, now) {
            Action::Rebuild(plan) => plan.shape == shape_for(
                transport.after(command, now).equalizer_enabled,
            ),
            _ => transport.after(command, now).equalizer_enabled == transport.equalizer_enabled,
        },
{
}

} // verus!
