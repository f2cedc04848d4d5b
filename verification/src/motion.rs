//! Where the cursor of a player is after many samples.

use crate::buffer::BufferView;
use crate::player::PlayerView;
use crate::sample::Sample;
use crate::speed::{fraction, lemma_whole_frames, magnitude, SPEED_ONE};
use crate::time::NANOS_PER_SEC;
use vstd::arithmetic::div_mod::lemma_fundamental_div_mod_converse;
use vstd::prelude::*;

verus! {

/// `x` held between zero and `max`.
pub open spec fn clamp(x: int, max: nat) -> nat {
    if x < 0 {
        0
    } else if x > max {
        max
    } else {
        x as nat
    }
}

impl<S> PlayerView<S> {
    /// The state after `n` samples.
    pub open spec fn after_samples(self, n: nat) -> PlayerView<S>
        decreases n,
    {
        if n == 0 {
            self
        } else {
            self.after_samples((n - 1) as nat).after_sample()
        }
    }

    /// The state is that of a player of a well-formed buffer.
    pub open spec fn wf(self) -> bool {
        &&& self.buffer.wf()
        &&& self.interval < SPEED_ONE
    }

    /// The cursor points at a sample of the buffer: at a channel of a
    /// frame that the buffer has; in an empty buffer, at the start.
    pub open spec fn inside(self) -> bool {
        &&& self.channel < self.buffer.channels
        &&& self.location <= self.buffer.max_location()
    }
}

impl<S: Sample> PlayerView<S> {
    /// The sample that is yielded after `n` others.
    pub open spec fn sample_at(self, n: nat) -> S {
        self.after_samples(n).emitted()
    }
}

/// Counting one more sample either moves on within the frame or starts
/// the next frame.
pub proof fn lemma_count_one_more(n: int, channels: int)
    requires
        0 <= n,
        0 < channels,
    ensures
        n % channels + 1 < channels ==> (n + 1) % channels == n % channels + 1 && (n + 1)
            / channels == n / channels,
        n % channels + 1 >= channels ==> (n + 1) % channels == 0 && (n + 1) / channels == n
            / channels + 1,
{
    let q = n / channels;
    let r = n % channels;
    assert(n == q * channels + r && 0 <= r < channels) by (nonlinear_arith)
        requires
            q == n / channels,
            r == n % channels,
            0 < channels,
    ;
    if r + 1 < channels {
        lemma_fundamental_div_mod_converse(n + 1, channels, q, r + 1);
    } else {
        assert(n + 1 == (q + 1) * channels + 0) by (nonlinear_arith)
            requires
                n == q * channels + r,
                r + 1 == channels,
        ;
        lemma_fundamental_div_mod_converse(n + 1, channels, q + 1, 0);
    }
}

/// Adding to a remainder and taking the remainder again is taking the
/// remainder of the sum.
pub proof fn lemma_mod_then_add(x: int, y: int, m: int)
    requires
        0 < m,
    ensures
        (x % m + y) % m == (x + y) % m,
{
    let q1 = x / m;
    let r1 = x % m;
    assert(x == q1 * m + r1 && 0 <= r1 < m) by (nonlinear_arith)
        requires
            q1 == x / m,
            r1 == x % m,
            0 < m,
    ;
    let q2 = (r1 + y) / m;
    let r2 = (r1 + y) % m;
    assert(r1 + y == q2 * m + r2 && 0 <= r2 < m) by (nonlinear_arith)
        requires
            q2 == (r1 + y) / m,
            r2 == (r1 + y) % m,
            0 < m,
    ;
    assert(x + y == (q1 + q2) * m + r2) by (nonlinear_arith)
        requires
            x == q1 * m + r1,
            r1 + y == q2 * m + r2,
    ;
    lemma_fundamental_div_mod_converse(x + y, m, q1 + q2, r2);
}

/// A cursor inside the buffer stays inside it, whatever the speed and
/// whether looping or not.
pub proof fn lemma_stays_inside<S>(player: PlayerView<S>)
    requires
        player.wf(),
        player.inside(),
    ensures
        player.after_sample().wf(),
        player.after_sample().inside(),
{
    if !player.silent() {
        lemma_next_is_inside(player);
    }
}

/// After a sample that is not silence, the cursor is inside the buffer,
/// wherever it was before.
pub proof fn lemma_next_is_inside<S>(player: PlayerView<S>)
    requires
        player.wf(),
        !player.silent(),
        player.inside() || player.frame_ends(),
    ensures
        player.after_sample().wf(),
        player.after_sample().channel < player.buffer.channels,
        player.after_sample().location <= player.buffer.max_location(),
        player.frame_ends() ==> player.after_sample().location < player.buffer.frame_count(),
{
    let channels = player.buffer.channels as int;
    let frames = player.buffer.frame_count() as int;
    let len = player.buffer.samples.len() as int;
    assert(frames > 0) by (nonlinear_arith)
        requires
            len > 0,
            channels > 0,
            len % channels == 0,
            frames == len / channels,
    ;
    let counted = player.channel as int + 1;
    assert(0 <= counted % channels < channels) by (nonlinear_arith)
        requires
            channels > 0,
    ;
    if player.frame_ends() {
        let target = player.location + player.frame_advance();
        assert(0 <= target % frames < frames) by (nonlinear_arith)
            requires
                frames > 0,
        ;
    }
}

/// However many samples are played, a cursor that starts inside the
/// buffer never leaves it.
pub proof fn lemma_never_leaves<S>(player: PlayerView<S>, n: nat)
    requires
        player.wf(),
        player.inside(),
    ensures
        player.after_samples(n).wf(),
        player.after_samples(n).inside(),
        player.after_samples(n).buffer == player.buffer,
        player.after_samples(n).speed == player.speed,
        player.after_samples(n).loop_mode == player.loop_mode,
    decreases n,
{
    if n > 0 {
        lemma_never_leaves(player, (n - 1) as nat);
        lemma_stays_inside(player.after_samples((n - 1) as nat));
    }
}

/// The frame that lies `delta` frames from `start`: wrapped round the
/// buffer when looping, else held at its ends.
pub open spec fn reached<S>(buffer: BufferView<S>, loop_mode: bool, start: nat, delta: int) -> nat {
    if loop_mode {
        ((start + delta) % (buffer.frame_count() as int)) as nat
    } else {
        clamp(start + delta, buffer.max_location())
    }
}

/// At a speed of a whole number of frames, other than zero, the cursor
/// moves by that number of frames at the end of each frame. After `n`
/// samples it has passed the ends of `(channel + n) / channels` frames; it
/// is then that many steps from where it started, wrapped round the buffer
/// when looping, else held at the ends of the buffer.
pub proof fn lemma_whole_speed_motion<S>(player: PlayerView<S>, step: int, n: nat)
    requires
        player.wf(),
        player.inside(),
        player.buffer.samples.len() > 0,
        player.speed == step * SPEED_ONE,
        step != 0,
    ensures
        player.after_samples(n).channel == (player.channel + n) % player.buffer.channels,
        player.after_samples(n).location == reached(
            player.buffer,
            player.loop_mode,
            player.location,
            step * ((player.channel + n) / player.buffer.channels),
        ),
        player.after_samples(n).interval == player.interval,
    decreases n,
{
    let channels = player.buffer.channels as int;
    let frames = player.buffer.frame_count() as int;
    let len = player.buffer.samples.len() as int;
    assert(frames > 0) by (nonlinear_arith)
        requires
            len > 0,
            channels > 0,
            len % channels == 0,
            frames == len / channels,
    ;
    if n == 0 {
        assert(player.channel as int % channels == player.channel && player.channel as int
            / channels == 0) by {
            lemma_fundamental_div_mod_converse(player.channel as int, channels, 0, player.channel as int);
        }
        assert(step * 0 == 0) by (nonlinear_arith);
        assert(player.location as int % frames == player.location) by {
            lemma_fundamental_div_mod_converse(player.location as int, frames, 0, player.location as int);
        }
    } else {
        let before = player.after_samples((n - 1) as nat);
        lemma_whole_speed_motion(player, step, (n - 1) as nat);
        lemma_never_leaves(player, (n - 1) as nat);
        lemma_whole_frames(step);
        lemma_speed_counts(player.buffer.sample_rate as int, step);
        assert(!before.silent());
        assert(before.whole_step());
        assert(before.frame_advance() == step);
        let count = player.channel + n - 1;
        lemma_count_one_more(count, channels);
        let done = count / channels;
        assert(0 <= done) by (nonlinear_arith)
            requires
                done == count / channels,
                count >= 0,
                channels > 0,
        ;
        assert(before.channel == count % channels);
        assert(count + 1 == player.channel + n);
        let after = player.after_samples(n);
        assert(after == before.after_sample());
        assert(after.channel == (before.channel + 1) % (channels as nat));
        if before.frame_ends() {
            assert(step * (done + 1) == step * done + step) by (nonlinear_arith);
            if player.loop_mode {
                lemma_mod_then_add(player.location + step * done, step, frames);
            } else {
                assert(step >= 0 ==> step * done >= 0) by (nonlinear_arith)
                    requires
                        done >= 0,
                ;
                assert(step <= 0 ==> step * done <= 0) by (nonlinear_arith)
                    requires
                        done >= 0,
                ;
                lemma_clamp_twice(
                    player.location as int,
                    step * done,
                    step,
                    player.buffer.max_location(),
                );
            }
            assert(after.location == reached(
                player.buffer,
                player.loop_mode,
                player.location,
                step * (done + 1),
            ));
            assert(after.channel == 0) by (nonlinear_arith)
                requires
                    after.channel == (before.channel + 1) % (channels as nat),
                    before.channel + 1 == channels,
                    channels > 0,
            ;
        } else {
            assert(after.channel == before.channel + 1) by (nonlinear_arith)
                requires
                    after.channel == (before.channel + 1) % (channels as nat),
                    before.channel + 1 < channels,
                    channels > 0,
            ;
        }
        assert(after.channel == (player.channel + n) % (channels as nat));
    }
}

/// Holding a walk between two bounds after each of two stretches in one
/// direction ends where holding it once, at the end, does.
pub proof fn lemma_clamp_twice(start: int, first: int, second: int, max: nat)
    requires
        0 <= start <= max,
        (first >= 0 && second >= 0) || (first <= 0 && second <= 0),
    ensures
        clamp(clamp(start + first, max) + second, max) == clamp(start + first + second, max),
{
}

/// The whole frames that the interval has carried over to the location
/// after `frames` frames at the raw speed `speed`, from `interval` on.
pub open spec fn carried_frames(interval: nat, speed: int, frames: nat) -> int {
    (interval + speed * frames) / (SPEED_ONE as int)
}

/// The interval after `frames` frames at the raw speed `speed`, from
/// `interval` on.
pub open spec fn carried_interval(interval: nat, speed: int, frames: nat) -> nat {
    ((interval + speed * frames) % (SPEED_ONE as int)) as nat
}

/// At a speed with a fraction, the interval adds up the speed frame by
/// frame and hands its whole frames on to the location, so that nothing
/// is lost: after `n` samples, which pass the ends of
/// `(channel + n) / channels` frames, location and interval together are
/// exactly that many times the speed from where they started, the
/// location wrapped round the buffer when looping, else held at its ends.
pub proof fn lemma_fraction_speed_motion<S>(player: PlayerView<S>, n: nat)
    requires
        player.wf(),
        player.inside(),
        !player.silent(),
        !player.whole_step(),
    ensures
        player.after_samples(n).channel == (player.channel + n) % player.buffer.channels,
        player.after_samples(n).location == reached(
            player.buffer,
            player.loop_mode,
            player.location,
            carried_frames(
                player.interval,
                player.speed,
                (player.channel + n) / player.buffer.channels,
            ),
        ),
        player.after_samples(n).interval == carried_interval(
            player.interval,
            player.speed,
            (player.channel + n) / player.buffer.channels,
        ),
    decreases n,
{
    let channels = player.buffer.channels as int;
    let frames = player.buffer.frame_count() as int;
    let len = player.buffer.samples.len() as int;
    let one = SPEED_ONE as int;
    assert(frames > 0) by (nonlinear_arith)
        requires
            len > 0,
            channels > 0,
            len % channels == 0,
            frames == len / channels,
    ;
    if n == 0 {
        assert(player.channel as int % channels == player.channel && player.channel as int
            / channels == 0) by {
            lemma_fundamental_div_mod_converse(
                player.channel as int,
                channels,
                0,
                player.channel as int,
            );
        }
        assert(player.speed * 0 == 0) by (nonlinear_arith);
        assert(player.location as int % frames == player.location) by {
            lemma_fundamental_div_mod_converse(
                player.location as int,
                frames,
                0,
                player.location as int,
            );
        }
    } else {
        let before = player.after_samples((n - 1) as nat);
        lemma_fraction_speed_motion(player, (n - 1) as nat);
        lemma_never_leaves(player, (n - 1) as nat);
        assert(!before.silent());
        assert(!before.whole_step());
        let count = player.channel + n - 1;
        lemma_count_one_more(count, channels);
        let done = count / channels;
        assert(0 <= done) by (nonlinear_arith)
            requires
                done == count / channels,
                count >= 0,
                channels > 0,
        ;
        assert(before.channel == count % channels);
        let after = player.after_samples(n);
        assert(after == before.after_sample());
        assert(after.channel == (before.channel + 1) % (channels as nat));
        if before.frame_ends() {
            let so_far = player.interval + player.speed * done;
            assert(player.speed * (done + 1) == player.speed * done + player.speed)
                by (nonlinear_arith);
            assert(player.speed >= 0 ==> player.speed * done >= 0) by (nonlinear_arith)
                requires
                    done >= 0,
            ;
            assert(player.speed <= 0 ==> player.speed * done <= 0) by (nonlinear_arith)
                requires
                    done >= 0,
            ;
            let carried = so_far / one;
            let kept = so_far % one;
            assert(before.interval == kept);
            let step = before.frame_advance();
            assert(step == (kept + player.speed) / one);
            assert((so_far + player.speed) / one == carried + step);
            assert((so_far + player.speed) % one == (kept + player.speed) % one);
            if player.loop_mode {
                lemma_mod_then_add(player.location + carried, step, frames);
            } else {
                lemma_clamp_twice(
                    player.location as int,
                    carried,
                    step,
                    player.buffer.max_location(),
                );
            }
            assert(after.channel == 0) by (nonlinear_arith)
                requires
                    after.channel == (before.channel + 1) % (channels as nat),
                    before.channel + 1 == channels,
                    channels > 0,
            ;
        } else {
            assert(after.channel == before.channel + 1) by (nonlinear_arith)
                requires
                    after.channel == (before.channel + 1) % (channels as nat),
                    before.channel + 1 < channels,
                    channels > 0,
            ;
        }
        assert(after.channel == (player.channel + n) % (channels as nat));
    }
}

/// A speed of a whole number of frames, other than zero, is not too slow
/// to play at any sample rate, and has no fraction to interpolate by.
pub proof fn lemma_speed_counts(sample_rate: int, step: int)
    requires
        sample_rate > 0,
        step != 0,
    ensures
        sample_rate * magnitude(step * SPEED_ONE) >= SPEED_ONE,
        sample_rate * fraction(step * SPEED_ONE) < SPEED_ONE,
{
    lemma_whole_frames(step);
    assert(sample_rate * (magnitude(step) * SPEED_ONE) >= SPEED_ONE) by (nonlinear_arith)
        requires
            sample_rate >= 1,
            magnitude(step) >= 1,
            SPEED_ONE == 0x1_0000_0000,
    ;
    assert(sample_rate * 0 == 0) by (nonlinear_arith);
}

/// Playing `a` samples and then `b` more is playing `a + b` samples.
pub proof fn lemma_samples_add<S>(player: PlayerView<S>, a: nat, b: nat)
    ensures
        player.after_samples(a).after_samples(b) == player.after_samples(a + b),
    decreases b,
{
    if b > 0 {
        lemma_samples_add(player, a, (b - 1) as nat);
        assert((a + b - 1) as nat == a + (b - 1) as nat);
    }
}

/// A player that yields silence rests: its state stays what it is.
pub proof fn lemma_silent_rests<S>(player: PlayerView<S>, n: nat)
    requires
        player.silent(),
    ensures
        player.after_samples(n) == player,
    decreases n,
{
    if n > 0 {
        lemma_silent_rests(player, (n - 1) as nat);
    }
}

/// At normal speed and without looping, a player that starts at the
/// beginning of a buffer yields the samples of the buffer, each once and in
/// order, and from then on the samples of the last frame again and again.
pub proof fn lemma_normal_speed_plays_buffer<S: Sample>(player: PlayerView<S>, n: nat)
    requires
        player.wf(),
        player.buffer.samples.len() > 0,
        player.channel == 0,
        player.location == 0,
        player.speed == SPEED_ONE,
        !player.loop_mode,
    ensures
        n < player.buffer.samples.len() ==> player.sample_at(n) == player.buffer.samples[n as int],
        n >= player.buffer.samples.len() ==> player.after_samples(n).location
            == player.buffer.max_location() && player.sample_at(n) == player.buffer.samples[
            player.buffer.samples.len() - player.buffer.channels + n % player.buffer.channels],
{
    let channels = player.buffer.channels as int;
    let frames = player.buffer.frame_count() as int;
    let len = player.buffer.samples.len() as int;
    assert(frames > 0 && len == frames * channels) by (nonlinear_arith)
        requires
            len > 0,
            channels > 0,
            len % channels == 0,
            frames == len / channels,
    ;
    assert(1 * SPEED_ONE == SPEED_ONE);
    lemma_whole_speed_motion(player, 1, n);
    lemma_never_leaves(player, n);
    lemma_speed_counts(player.buffer.sample_rate as int, 1);
    lemma_whole_frames(1);
    let now = player.after_samples(n);
    let passed = (n as int) / channels;
    let within = (n as int) % channels;
    assert(n == passed * channels + within && 0 <= within < channels && 0 <= passed)
        by (nonlinear_arith)
        requires
            passed == (n as int) / channels,
            within == (n as int) % channels,
            channels > 0,
            n >= 0,
    ;
    assert(1 * passed == passed);
    assert(!now.silent());
    assert(now.whole_step());
    if n < len {
        assert(passed < frames) by (nonlinear_arith)
            requires
                n == passed * channels + within,
                0 <= within,
                n < len,
                len == frames * channels,
                channels > 0,
        ;
        assert(now.location == passed);
        assert(now.location * channels + now.channel == n);
    } else {
        assert(passed >= frames) by (nonlinear_arith)
            requires
                n == passed * channels + within,
                within < channels,
                n >= len,
                len == frames * channels,
                channels > 0,
        ;
        assert(now.location == frames - 1);
        assert(now.location * channels + now.channel == len - channels + within)
            by (nonlinear_arith)
            requires
                now.location == frames - 1,
                now.channel == within,
                len == frames * channels,
        ;
    }
}

/// After `frames` whole frames at a speed of `step` whole frames, a
/// player without looping is `step * frames` frames from where it started,
/// held at the ends of the buffer.
pub proof fn lemma_whole_speed_frames<S>(player: PlayerView<S>, step: int, frames: nat)
    requires
        player.wf(),
        player.inside(),
        player.speed == step * SPEED_ONE,
        !player.loop_mode,
    ensures
        player.after_samples(frames * player.buffer.channels).location == clamp(
            player.location + step * frames,
            player.buffer.max_location(),
        ),
{
    let channels = player.buffer.channels as int;
    let n = frames * player.buffer.channels;
    if player.buffer.samples.len() == 0 || step == 0 {
        assert(0 * SPEED_ONE == 0);
        assert(player.buffer.sample_rate * 0 == 0) by (nonlinear_arith);
        assert(player.silent());
        lemma_silent_rests(player, n);
        assert(step == 0 ==> step * frames == 0) by (nonlinear_arith);
        if player.buffer.samples.len() == 0 {
            assert(player.buffer.frame_count() == 0) by (nonlinear_arith)
                requires
                    player.buffer.samples.len() == 0,
                    channels > 0,
                    player.buffer.frame_count() == 0int / channels,
            ;
        }
    } else {
        lemma_whole_speed_motion(player, step, n);
        lemma_fundamental_div_mod_converse(
            (player.channel + n) as int,
            channels,
            frames as int,
            player.channel as int,
        );
    }
}

/// A looping player at a speed of `step` whole frames, other than zero,
/// comes back to the state it is in after `turns * (frame_count / divisor)`
/// frames, for every common divisor of the speed and the number of
/// frames: the greatest one gives the shortest such period. From there on
/// it repeats what it did.
pub proof fn lemma_loop_period<S>(
    player: PlayerView<S>,
    step: int,
    divisor: nat,
    turns: nat,
    n: nat,
)
    requires
        player.wf(),
        player.inside(),
        player.buffer.samples.len() > 0,
        player.speed == step * SPEED_ONE,
        step != 0,
        player.loop_mode,
        divisor > 0,
        player.buffer.frame_count() % divisor == 0,
        step % (divisor as int) == 0,
    ensures
        player.after_samples(
            turns * (player.buffer.frame_count() / divisor) * player.buffer.channels,
        ) == player,
        player.after_samples(
            turns * (player.buffer.frame_count() / divisor) * player.buffer.channels + n,
        ) == player.after_samples(n),
{
    let channels = player.buffer.channels as int;
    let frames = player.buffer.frame_count() as int;
    let len = player.buffer.samples.len() as int;
    assert(frames > 0) by (nonlinear_arith)
        requires
            len > 0,
            channels > 0,
            len % channels == 0,
            frames == len / channels,
    ;
    let part = frames / (divisor as int);
    let passed = turns * part;
    let period = (turns * (player.buffer.frame_count() / divisor) * player.buffer.channels) as nat;
    assert(period == passed * channels);
    assert(passed >= 0) by (nonlinear_arith)
        requires
            passed == turns * part,
            part == frames / (divisor as int),
            frames > 0,
            divisor > 0,
            turns >= 0,
    ;
    lemma_whole_speed_motion(player, step, period);
    lemma_never_leaves(player, period);
    lemma_fundamental_div_mod_converse(
        (player.channel + period) as int,
        channels,
        passed,
        player.channel as int,
    );
    let share = step / (divisor as int);
    let laps = share * turns;
    assert(step * passed == laps * frames) by (nonlinear_arith)
        requires
            passed == turns * part,
            part == frames / (divisor as int),
            frames % (divisor as int) == 0,
            share == step / (divisor as int),
            step % (divisor as int) == 0,
            laps == share * turns,
            divisor > 0,
    ;
    lemma_fundamental_div_mod_converse(
        player.location + step * passed,
        frames,
        laps,
        player.location as int,
    );
    let back = player.after_samples(period);
    assert(back.channel == player.channel);
    assert(back.location == player.location);
    assert(back == player);
    lemma_samples_add(player, period, n);
}

/// A looping player at a speed with a fraction comes back to the state it
/// is in after any number of frames in which the speed adds up to whole
/// laps of the buffer. From there on it repeats what it did.
pub proof fn lemma_loop_period_fraction<S>(
    player: PlayerView<S>,
    laps: int,
    frames: nat,
    n: nat,
)
    requires
        player.wf(),
        player.inside(),
        !player.silent(),
        !player.whole_step(),
        player.loop_mode,
        player.speed * frames == laps * player.buffer.frame_count() * SPEED_ONE,
    ensures
        player.after_samples(frames * player.buffer.channels) == player,
        player.after_samples(frames * player.buffer.channels + n) == player.after_samples(n),
{
    let channels = player.buffer.channels as int;
    let count = player.buffer.frame_count() as int;
    let len = player.buffer.samples.len() as int;
    let one = SPEED_ONE as int;
    assert(count > 0) by (nonlinear_arith)
        requires
            len > 0,
            channels > 0,
            len % channels == 0,
            count == len / channels,
    ;
    let period = frames * player.buffer.channels;
    lemma_fraction_speed_motion(player, period);
    lemma_never_leaves(player, period);
    lemma_fundamental_div_mod_converse(
        (player.channel + period) as int,
        channels,
        frames as int,
        player.channel as int,
    );
    let whole = laps * count;
    assert(player.interval + player.speed * frames == whole * one + player.interval)
        by (nonlinear_arith)
        requires
            player.speed * frames == laps * count * one,
            whole == laps * count,
    ;
    lemma_fundamental_div_mod_converse(
        player.interval + player.speed * frames,
        one,
        whole,
        player.interval as int,
    );
    lemma_fundamental_div_mod_converse(
        player.location + whole,
        count,
        laps,
        player.location as int,
    );
    let back = player.after_samples(period);
    assert(back.channel == player.channel);
    assert(back.interval == player.interval);
    assert(back.location == player.location);
    assert(back == player);
    lemma_samples_add(player, period, n);
}

/// A seek and the time read after it: the time is the one asked for, or
/// the playing time of the buffer where that is less, but for less than
/// the time of one frame and one nanosecond of rounding, and never later.
pub proof fn lemma_seek_then_time<S>(player: PlayerView<S>, nanos: nat)
    requires
        player.buffer.wf(),
    ensures
        ({
            let sought = PlayerView { location: player.location_at(nanos), ..player };
            let asked = if nanos < player.buffer.duration_nanos() {
                nanos
            } else {
                player.buffer.duration_nanos()
            };
            &&& sought.time_nanos() <= asked
            &&& (asked - sought.time_nanos()) * player.buffer.sample_rate < NANOS_PER_SEC
                + player.buffer.sample_rate
        }),
{
    let rate = player.buffer.sample_rate as int;
    let frames = player.buffer.frame_count() as int;
    let last = player.buffer.max_location() as int;
    let second = NANOS_PER_SEC as int;
    let wanted = (nanos * rate) / second;
    let location = player.location_at(nanos) as int;
    let time = (location * second) / rate;
    let whole = (frames * second) / rate;
    assert(wanted * second <= nanos * rate < wanted * second + second) by (nonlinear_arith)
        requires
            wanted == (nanos * rate) / second,
            second > 0,
    ;
    assert(time * rate <= location * second < time * rate + rate) by (nonlinear_arith)
        requires
            time == (location * second) / rate,
            rate > 0,
    ;
    assert(whole * rate <= frames * second < whole * rate + rate) by (nonlinear_arith)
        requires
            whole == (frames * second) / rate,
            rate > 0,
    ;
    assert(0 <= frames);
    assert(0 <= location <= wanted);
    assert(location == 0 || location < frames);
    // The time read is not after the time asked for.
    assert(time <= nanos) by (nonlinear_arith)
        requires
            time * rate <= location * second,
            wanted * second <= nanos * rate,
            location <= wanted,
            rate > 0,
            second > 0,
    ;
    // Nor is it after the end of the buffer.
    assert(time <= whole) by (nonlinear_arith)
        requires
            time * rate <= location * second,
            frames * second < whole * rate + rate,
            location <= frames,
            rate > 0,
            second > 0,
    ;
    if wanted < last {
        assert((nanos - time) * rate < second + rate) by (nonlinear_arith)
            requires
                location == wanted,
                nanos * rate < wanted * second + second,
                location * second < time * rate + rate,
        ;
        let asked = if nanos < whole {
            nanos as int
        } else {
            whole
        };
        assert((asked - time) * rate <= (nanos - time) * rate) by (nonlinear_arith)
            requires
                asked <= nanos,
                rate > 0,
        ;
    } else if frames > 0 {
        assert((whole - time) * rate < second + rate) by (nonlinear_arith)
            requires
                location == frames - 1,
                whole * rate <= frames * second,
                location * second < time * rate + rate,
        ;
        let asked = if nanos < whole {
            nanos as int
        } else {
            whole
        };
        assert((asked - time) * rate <= (whole - time) * rate) by (nonlinear_arith)
            requires
                asked <= whole,
                rate > 0,
        ;
    } else {
        assert(whole == 0);
        assert(time == 0);
        assert((0 - 0) * rate == 0) by (nonlinear_arith);
    }
}

} // verus!
