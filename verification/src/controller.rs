//! The control surface of a player: what one side asks for is handed to
//! the player at its next periodic tick.

use crate::buffer::{BufferView, SamplesBuffer};
use crate::player::{BufferPlayer, PlayerView};
use crate::slot::HandOff;
use crate::speed::{Speed, SPEED_ONE};
use crate::time::{duration_from_nanos, duration_nanos, NANOS_PER_SEC};
use std::sync::Arc;
use std::time::Duration;
use vstd::prelude::*;

verus! {

/// What an [`AudioController`] holds. Times are in nanoseconds.
pub struct ControllerView<S> {
    /// The buffer that waits to be attached to the player.
    pub pending_buffer: Option<BufferView<S>>,
    /// The buffer that was asked for last.
    pub target: BufferView<S>,
    /// The time that the player is to seek to.
    pub pending_seek: Option<nat>,
    /// The time of the player as last published, or as last asked for.
    pub time: nat,
    /// The raw speed that the player is to play at.
    pub speed: int,
    /// Whether the player is to loop.
    pub loop_mode: bool,
}

impl<S> ControllerView<S> {
    /// The state in which `buffer` has been asked for.
    pub open spec fn with_target(self, buffer: BufferView<S>) -> ControllerView<S> {
        ControllerView { pending_buffer: Some(buffer), target: buffer, ..self }
    }

    /// The state in which a seek to `nanos` has been asked for. The time
    /// shows it at once.
    pub open spec fn with_seek(self, nanos: nat) -> ControllerView<S> {
        ControllerView { pending_seek: Some(nanos), time: nanos, ..self }
    }

    /// The player once the pending buffer, if any, has been attached.
    pub open spec fn swapped(self, player: PlayerView<S>) -> PlayerView<S> {
        match self.pending_buffer {
            Some(buffer) => PlayerView { buffer, ..player },
            None => player,
        }
    }

    /// The player once the pending buffer has been attached and then the
    /// pending seek, if any, has been made.
    pub open spec fn sought(self, player: PlayerView<S>) -> PlayerView<S> {
        let swapped = self.swapped(player);
        match self.pending_seek {
            Some(nanos) => PlayerView { location: swapped.location_at(nanos), ..swapped },
            None => swapped,
        }
    }

    /// The player after a tick: buffer, seek, speed and loop mode are
    /// applied, in this order.
    pub open spec fn synced(self, player: PlayerView<S>) -> PlayerView<S> {
        PlayerView { speed: self.speed, loop_mode: self.loop_mode, ..self.sought(player) }
    }

    /// The state after a tick: nothing is pending, and the time is that of
    /// the player after its seek.
    pub open spec fn ticked(self, player: PlayerView<S>) -> ControllerView<S> {
        ControllerView {
            pending_buffer: None,
            pending_seek: None,
            time: self.sought(player).time_nanos(),
            ..self
        }
    }

    /// Where playback of a buffer that lasts `nanos` starts at the current
    /// speed: in reverse at its end, else at its start.
    pub open spec fn entry_time(self, nanos: nat) -> nat {
        if self.speed < 0 {
            nanos
        } else {
            0
        }
    }

    /// The state after `buffer` has been loaded: where it is the target
    /// already, nothing changes; else it is asked for, with a seek to the
    /// time at which its playback starts.
    pub open spec fn retargeted(self, buffer: BufferView<S>, already_target: bool)
        -> ControllerView<S> {
        if already_target {
            self
        } else {
            self.with_target(buffer).with_seek(self.entry_time(buffer.duration_nanos()))
        }
    }
}

/// Asking twice for one buffer between two ticks is asking for it once:
/// the tick attaches the buffer to the player and leaves nothing pending,
/// so that the tick after it attaches nothing.
pub proof fn lemma_one_swap<S>(
    controller: ControllerView<S>,
    buffer: BufferView<S>,
    player: PlayerView<S>,
    later: PlayerView<S>,
)
    ensures
        controller.with_target(buffer).with_target(buffer) == controller.with_target(buffer),
        controller.with_target(buffer).synced(player).buffer == buffer,
        controller.with_target(buffer).ticked(player).pending_buffer is None,
        controller.with_target(buffer).ticked(player).swapped(later) == later,
        controller.retargeted(buffer, true) == controller,
{
}

/// A buffer that is brought in while the speed is negative is entered at
/// its end: after the next tick the player is at the last frame of the
/// new buffer. At any other speed it is entered at its start.
///
/// The time of the end is kept in whole nanoseconds. At more than one
/// frame per nanosecond that is too coarse to tell the last frames apart,
/// so such rates are left out.
pub proof fn lemma_entry_by_direction<S>(
    controller: ControllerView<S>,
    buffer: BufferView<S>,
    player: PlayerView<S>,
)
    requires
        buffer.wf(),
        buffer.sample_rate <= NANOS_PER_SEC,
    ensures
        controller.retargeted(buffer, false).synced(player).buffer == buffer,
        controller.speed < 0 ==> controller.retargeted(buffer, false).synced(player).location
            == buffer.max_location(),
        controller.speed >= 0 ==> controller.retargeted(buffer, false).synced(player).location
            == 0,
{
    let rate = buffer.sample_rate as int;
    let frames = buffer.frame_count() as int;
    let second = NANOS_PER_SEC as int;
    let whole = (frames * second) / rate;
    let wanted = (whole * rate) / second;
    assert(whole * rate <= frames * second < whole * rate + rate) by (nonlinear_arith)
        requires
            whole == (frames * second) / rate,
            rate > 0,
    ;
    assert(wanted * second <= whole * rate < wanted * second + second) by (nonlinear_arith)
        requires
            wanted == (whole * rate) / second,
            second > 0,
    ;
    assert(wanted >= frames - 1) by (nonlinear_arith)
        requires
            frames * second < whole * rate + rate,
            whole * rate < wanted * second + second,
            rate <= second,
            second > 0,
    ;
    assert((0 * rate) / second == 0) by (nonlinear_arith)
        requires
            second > 0,
    ;
    let entered = controller.retargeted(buffer, false);
    let swapped = entered.swapped(player);
    assert(swapped.buffer == buffer);
    if controller.speed < 0 {
        assert(entered.pending_seek == Some(buffer.duration_nanos()));
        assert(swapped.location_at(buffer.duration_nanos()) == buffer.max_location());
    } else {
        assert(entered.pending_seek == Some(0nat));
        assert(swapped.location_at(0) == 0);
    }
}

/// `Arc::ptr_eq`: whether the two pointers share one allocation. Two that
/// do hold one and the same buffer; two that do not may still hold equal
/// buffers.
#[verifier::external_body]
fn same_allocation<S>(a: &Arc<SamplesBuffer<S>>, b: &Arc<SamplesBuffer<S>>) -> (r: bool)
    ensures
        r ==> a == b,
{
    Arc::ptr_eq(a, b)
}

/// The control state of a player.
pub struct AudioController<S> {
    changed_target_buffer: HandOff<Arc<SamplesBuffer<S>>>,
    target_buffer: Arc<SamplesBuffer<S>>,
    changed_time: HandOff<Duration>,
    time: Duration,
    speed: Speed,
    loop_mode: bool,
}

impl<S> View for AudioController<S> {
    type V = ControllerView<S>;

    closed spec fn view(&self) -> ControllerView<S> {
        ControllerView {
            pending_buffer: match self.changed_target_buffer@ {
                Some(buffer) => Some(buffer@),
                None => None,
            },
            target: self.target_buffer@,
            pending_seek: match self.changed_time@ {
                Some(time) => Some(duration_nanos(time)),
                None => None,
            },
            time: duration_nanos(self.time),
            speed: self.speed@,
            loop_mode: self.loop_mode,
        }
    }
}

impl<S> AudioController<S> {
    /// The buffer that was asked for last.
    pub closed spec fn target(&self) -> Arc<SamplesBuffer<S>> {
        self.target_buffer
    }

    /// The buffer that waits to be attached to the player.
    pub closed spec fn pending(&self) -> Option<Arc<SamplesBuffer<S>>> {
        self.changed_target_buffer@
    }

    /// A controller for a player of `buffer`: nothing is pending, the time
    /// is zero, the speed normal, and the player is not to loop.
    pub fn new(buffer: Arc<SamplesBuffer<S>>) -> (r: AudioController<S>)
        ensures
            r.target() == buffer,
            r.pending() is None,
            r@ == (ControllerView {
                pending_buffer: None,
                target: buffer@,
                pending_seek: None,
                time: 0,
                speed: SPEED_ONE as int,
                loop_mode: false,
            }),
    {
        AudioController {
            changed_target_buffer: HandOff::new(),
            target_buffer: buffer,
            changed_time: HandOff::new(),
            time: duration_from_nanos(0),
            speed: Speed::from_raw(0x1_0000_0000),
            loop_mode: false,
        }
    }

    /// A controller and the player that it controls, both for `buffer`.
    pub fn new_with_buffer(buffer: Arc<SamplesBuffer<S>>) -> (r: (
        AudioController<S>,
        BufferPlayer<S>,
    ))
        ensures
            r.0.target() == buffer,
            r.0.pending() is None,
            r.0@ == (ControllerView {
                pending_buffer: None,
                target: buffer@,
                pending_seek: None,
                time: 0,
                speed: SPEED_ONE as int,
                loop_mode: false,
            }),
            r.1.attached() == buffer,
            r.1@ == (PlayerView {
                buffer: buffer@,
                channel: 0,
                location: 0,
                interval: 0,
                speed: SPEED_ONE as int,
                loop_mode: false,
            }),
    {
        let controller = AudioController::new(Arc::clone(&buffer));
        let player = BufferPlayer::new(buffer);
        (controller, player)
    }

    /// Hands what is pending to the player, then publishes the player's
    /// time. To be called at a short fixed interval from where the player
    /// runs.
    pub fn tick(&mut self, player: &mut BufferPlayer<S>)
        ensures
            final(player)@ == old(self)@.synced(old(player)@),
            final(player).attached() == (match old(self).pending() {
                Some(buffer) => buffer,
                None => old(player).attached(),
            }),
            final(self)@ == old(self)@.ticked(old(player)@),
            final(self).target() == old(self).target(),
            final(self).pending() is None,
    {
        if let Some(buffer) = self.changed_target_buffer.take() {
            player.set_buffer(buffer);
        }
        if let Some(time) = self.changed_time.take() {
            player.set_time(time);
        }
        self.time = player.get_time();
        player.set_speed(self.speed);
        player.set_loop_mode(self.loop_mode);
    }

    /// Asks for `buffer`: the player gets it at the next tick. Of several
    /// buffers asked for between two ticks, the last one wins.
    pub fn set_target_buffer(&mut self, buffer: Arc<SamplesBuffer<S>>)
        ensures
            final(self)@ == old(self)@.with_target(buffer@),
            final(self).target() == buffer,
            final(self).pending() == Some(buffer),
    {
        self.target_buffer = Arc::clone(&buffer);
        self.changed_target_buffer.put(buffer);
    }

    /// The buffer that was asked for last.
    pub fn get_target_buffer(&self) -> (r: &Arc<SamplesBuffer<S>>)
        ensures
            *r == self.target(),
            r@ == self@.target,
    {
        &self.target_buffer
    }

    /// The speed that the player is to play at.
    pub fn get_speed(&self) -> (r: Speed)
        ensures
            r@ == self@.speed,
    {
        self.speed
    }

    /// Sets the speed that the player is to play at from the next tick on.
    pub fn set_speed(&mut self, speed: Speed)
        ensures
            final(self)@ == (ControllerView { speed: speed@, ..old(self)@ }),
            final(self).target() == old(self).target(),
            final(self).pending() == old(self).pending(),
    {
        self.speed = speed;
    }

    /// The time of the player as last published, or as last asked for.
    pub fn get_time(&self) -> (r: Duration)
        ensures
            duration_nanos(r) == self@.time,
    {
        self.time
    }

    /// Asks for a seek to `time`: the player makes it at the next tick. The
    /// time shows it at once.
    pub fn change_time(&mut self, time: Duration)
        ensures
            final(self)@ == old(self)@.with_seek(duration_nanos(time)),
            final(self).target() == old(self).target(),
            final(self).pending() == old(self).pending(),
    {
        self.changed_time.put(time);
        self.time = time;
    }

    /// Whether the player is to loop.
    pub fn get_loop_mode(&self) -> (r: bool)
        ensures
            r == self@.loop_mode,
    {
        self.loop_mode
    }

    /// Sets whether the player is to loop from the next tick on.
    pub fn set_loop_mode(&mut self, loop_mode: bool)
        ensures
            final(self)@ == (ControllerView { loop_mode, ..old(self)@ }),
            final(self).target() == old(self).target(),
            final(self).pending() == old(self).pending(),
    {
        self.loop_mode = loop_mode;
    }

    /// Brings in a buffer that has been loaded, given whether it is the
    /// target already. One that is changes nothing. Another one is asked
    /// for, with a seek to where its playback starts: to its end when the
    /// speed is negative, else to its start. Returns the playing time of
    /// the buffer where it was asked for.
    pub fn replace_target(&mut self, buffer: Arc<SamplesBuffer<S>>, already_target: bool) -> (r:
        Option<Duration>)
        ensures
            final(self)@ == old(self)@.retargeted(buffer@, already_target),
            already_target ==> r is None && final(self).target() == old(self).target() && final(self).pending() == old(self).pending(),
            !already_target ==> final(self).target() == buffer && final(self).pending() == Some(
                buffer,
            ),
            !already_target ==> (r matches Some(d) && duration_nanos(d)
                == buffer@.duration_nanos()),
    {
        if already_target {
            return None;
        }
        let duration: Duration = buffer.get_duration();
        self.set_target_buffer(buffer);
        if self.speed.is_reverse() {
            self.change_time(duration);
        } else {
            self.change_time(duration_from_nanos(0));
        }
        Some(duration)
    }

    /// Brings in a buffer that has been loaded, unless it is the very
    /// buffer that is the target already. Returns the playing time of the
    /// buffer where it was asked for.
    pub fn load_buffer(&mut self, buffer: Arc<SamplesBuffer<S>>) -> (r: Option<Duration>)
        ensures
            r is None ==> final(self)@ == old(self)@ && final(self).target() == old(self).target() && final(self).pending() == old(self).pending(),
            r matches Some(d) ==> final(self)@ == old(self)@.retargeted(buffer@, false) && final(self).target() == buffer && final(self).pending() == Some(buffer) && duration_nanos(d)
                == buffer@.duration_nanos(),
            r is None ==> buffer == old(self).target(),
    {
        let already_target: bool = same_allocation(&self.target_buffer, &buffer);
        self.replace_target(buffer, already_target)
    }
}

} // verus!
