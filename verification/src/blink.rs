//! The background blinking loops, as state machines.
//!
//! A blinking thread alternates sleeping with decisions. The decisions live here: each
//! step takes the current value of the shared "still blinking" flag and says what the
//! thread does next. Sleeping and driving the pins is the caller's part.
use vstd::prelude::*;

verus! {

/// One blink or pass less: `Some(k)` becomes `Some(k - 1)`, an endless count stays endless.
pub open spec fn one_less(remaining: Option<i32>) -> Option<i32> {
    match remaining {
        Some(k) => Some((k - 1) as i32),
        None => None,
    }
}

/// What a digital blinking loop does next.
#[derive(PartialEq, Eq, Structural, Clone, Copy, Debug)]
pub enum BlinkStep {
    /// First half of a blink: turn the device on, then sleep the on time.
    TurnOn,
    /// Second half of a blink: turn the device off, then sleep the off time.
    TurnOff,
    /// The flag was cleared: leave the loop without touching the pins (whoever cleared the
    /// flag drives them).
    Halt,
    /// The requested number of blinks is done: leave the loop.
    Finished,
}

/// The loop of a digital blinker (LED, buzzer, RGB LED).
///
/// `remaining` is the number of blinks still to start, or `None` to blink until halted;
/// `off_next` says that the current blink's "off" half is due.
#[derive(Debug)]
pub struct BlinkLoop {
    remaining: Option<i32>,
    off_next: bool,
}

/// Whether a digital loop in this state has ended.
pub open spec fn blink_done(remaining: Option<i32>, off_next: bool) -> bool {
    !off_next && (remaining matches Some(k) && k <= 0)
}

/// One step of a digital blinking loop: from the blinks left to start, whether the off
/// half is due, and the flag, the next action and the state afterwards.
///
/// The flag is read before every write, so once it is cleared the loop writes nothing more.
pub open spec fn blink_next(remaining: Option<i32>, off_next: bool, blinking: bool) -> (
    BlinkStep,
    Option<i32>,
    bool,
) {
    if blink_done(remaining, off_next) {
        (BlinkStep::Finished, Some(0i32), false)
    } else if !blinking {
        (BlinkStep::Halt, Some(0i32), false)
    } else if off_next {
        (BlinkStep::TurnOff, remaining, false)
    } else {
        (BlinkStep::TurnOn, one_less(remaining), true)
    }
}

/// The actions of a loop whose flag stays set, for `fuel` steps.
pub open spec fn blink_run(remaining: Option<i32>, off_next: bool, fuel: nat) -> Seq<BlinkStep>
    decreases fuel,
{
    if fuel == 0 {
        Seq::empty()
    } else {
        let (step, next_remaining, next_off) = blink_next(remaining, off_next, true);
        seq![step] + blink_run(next_remaining, next_off, (fuel - 1) as nat)
    }
}

/// `blinks` whole blinks: on, off, on, off, ...
pub open spec fn blink_pattern(blinks: nat) -> Seq<BlinkStep>
    decreases blinks,
{
    if blinks == 0 {
        Seq::empty()
    } else {
        seq![BlinkStep::TurnOn, BlinkStep::TurnOff] + blink_pattern((blinks - 1) as nat)
    }
}

impl BlinkLoop {
    /// The blinks still to start: `Some(k)` for a counted loop, `None` for an endless one.
    pub closed spec fn remaining_spec(self) -> Option<i32> {
        self.remaining
    }

    /// Whether the "off" half of the current blink is due.
    pub closed spec fn off_next_spec(self) -> bool {
        self.off_next
    }

    /// Whether the loop has ended (it only ever yields `Finished` from here on).
    pub open spec fn is_done(self) -> bool {
        blink_done(self.remaining_spec(), self.off_next_spec())
    }

    /// A loop for `count` blinks (`None`: until halted).
    pub fn new(count: Option<i32>) -> (l: BlinkLoop)
        ensures
            l.remaining_spec() == count,
            !l.off_next_spec(),
    {
        BlinkLoop { remaining: count, off_next: false }
    }

    /// The next action, given whether the shared flag still says "blinking".
    pub fn step(&mut self, blinking: bool) -> (step: BlinkStep)
        ensures
            (step, final(self).remaining_spec(), final(self).off_next_spec()) == blink_next(
                old(self).remaining_spec(),
                old(self).off_next_spec(),
                blinking,
            ),
    {
        let done = !self.off_next && match self.remaining {
            Some(k) => k <= 0,
            None => false,
        };
        if done {
            self.remaining = Some(0);
            BlinkStep::Finished
        } else if !blinking {
            self.remaining = Some(0);
            self.off_next = false;
            BlinkStep::Halt
        } else if self.off_next {
            self.off_next = false;
            BlinkStep::TurnOff
        } else {
            self.remaining = match self.remaining {
                Some(k) => Some(k - 1),
                None => None,
            };
            self.off_next = true;
            BlinkStep::TurnOn
        }
    }
}

/// A counted blinker whose flag is never cleared blinks exactly `n` times (on, then off)
/// and then finishes (no blink at all when `n` is zero or negative).
pub proof fn lemma_counted_blink_cycles(n: i32)
    ensures
        ({
            let blinks: nat = if n > 0 { n as nat } else { 0nat };
            blink_run(Some(n), false, 2 * blinks + 1) =~= blink_pattern(blinks).push(
                BlinkStep::Finished,
            )
        }),
    decreases (if n > 0 { n as nat } else { 0nat }),
{
    if n > 0 {
        let m: nat = (n - 1) as nat;
        lemma_counted_blink_cycles((n - 1) as i32);
        assert(blink_run(Some((n - 1) as i32), true, 2 * m + 2) == seq![BlinkStep::TurnOff]
            + blink_run(Some((n - 1) as i32), false, 2 * m + 1));
        assert(blink_run(Some(n), false, 2 * (n as nat) + 1) == seq![BlinkStep::TurnOn]
            + blink_run(Some((n - 1) as i32), true, 2 * m + 2));
        assert(blink_pattern(n as nat) == seq![BlinkStep::TurnOn, BlinkStep::TurnOff]
            + blink_pattern(m));
    } else {
        assert(blink_run(Some(0i32), false, 0) =~= Seq::<BlinkStep>::empty());
        assert(blink_run(Some(n), false, 1) =~= seq![BlinkStep::Finished] + blink_run(
            Some(0i32),
            false,
            0,
        ));
    }
}

/// Once the flag is cleared, the loop writes nothing more: its next step halts (or
/// reports that it had already finished) without driving a pin, and every step after that
/// reports `Finished`, whatever the flag says then.
pub proof fn lemma_cleared_flag_halts(remaining: Option<i32>, off_next: bool, later_flag: bool)
    ensures
        ({
            let (step, next_remaining, next_off) = blink_next(remaining, off_next, false);
            &&& step == (if blink_done(remaining, off_next) {
                BlinkStep::Finished
            } else {
                BlinkStep::Halt
            })
            &&& blink_done(next_remaining, next_off)
            &&& blink_next(next_remaining, next_off, later_flag).0 == BlinkStep::Finished
        }),
{
}

/// One frame of a PWM blink sequence.
#[derive(PartialEq, Eq, Structural, Clone, Copy, Debug)]
pub enum Frame {
    /// The `i`th fade-in frame (1/25 s each), from the off value towards the on value.
    FadeIn(u32),
    /// Stay at the on value for the on time.
    On,
    /// The `i`th fade-out frame (1/25 s each), from the on value towards the off value.
    FadeOut(u32),
    /// Stay at the off value for the off time.
    Off,
}

/// Frames per second of a fade.
pub const FADE_FPS: u64 = 25;

/// The number of frames of a fade lasting `millis` milliseconds: one per whole 1/25 s.
pub open spec fn fade_frame_count(millis: u32) -> nat {
    ((FADE_FPS * millis) / 1000) as nat
}

/// The frames of one blink: fade in, on, fade out, off.
pub open spec fn blink_frames(fade_in_frames: nat, fade_out_frames: nat) -> Seq<Frame> {
    Seq::new(fade_in_frames, |i: int| Frame::FadeIn(i as u32)).push(Frame::On) + Seq::new(
        fade_out_frames,
        |i: int| Frame::FadeOut(i as u32),
    ).push(Frame::Off)
}

/// The number of fade frames for a fade of `millis` milliseconds.
pub fn fade_frames(millis: u32) -> (n: u32)
    ensures
        n == fade_frame_count(millis),
{
    let frames: u64 = (FADE_FPS * (millis as u64)) / 1000;
    frames as u32
}

/// The frame sequence of one PWM blink, for fades of the given milliseconds.
pub fn blink_sequence(fade_in_millis: u32, fade_out_millis: u32) -> (frames: Vec<Frame>)
    ensures
        frames@ == blink_frames(fade_frame_count(fade_in_millis), fade_frame_count(fade_out_millis)),
{
    let fade_in = fade_frames(fade_in_millis);
    let fade_out = fade_frames(fade_out_millis);
    let ghost fade_in_seq = Seq::new(fade_in as nat, |i: int| Frame::FadeIn(i as u32));
    let ghost fade_out_seq = Seq::new(fade_out as nat, |i: int| Frame::FadeOut(i as u32));
    let mut frames: Vec<Frame> = Vec::new();
    let mut i: u32 = 0;
    while i < fade_in
        invariant
            0 <= i <= fade_in,
            fade_in_seq == Seq::new(fade_in as nat, |i: int| Frame::FadeIn(i as u32)),
            frames@ == fade_in_seq.take(i as int),
        decreases fade_in - i,
    {
        frames.push(Frame::FadeIn(i));
        i = i + 1;
        assert(frames@ =~= fade_in_seq.take(i as int));
    }
    assert(fade_in_seq.take(fade_in as int) =~= fade_in_seq);
    frames.push(Frame::On);
    let ghost prefix = frames@;
    let mut j: u32 = 0;
    while j < fade_out
        invariant
            0 <= j <= fade_out,
            fade_out_seq == Seq::new(fade_out as nat, |i: int| Frame::FadeOut(i as u32)),
            frames@ == prefix + fade_out_seq.take(j as int),
        decreases fade_out - j,
    {
        frames.push(Frame::FadeOut(j));
        j = j + 1;
        assert(frames@ =~= prefix + fade_out_seq.take(j as int));
    }
    assert(fade_out_seq.take(fade_out as int) =~= fade_out_seq);
    frames.push(Frame::Off);
    assert(frames@ =~= blink_frames(fade_in as nat, fade_out as nat));
    frames
}

/// What a PWM blinking loop does next.
#[derive(PartialEq, Eq, Structural, Clone, Copy, Debug)]
pub enum FrameStep {
    /// Set the pin to the frame at this position of the sequence and sleep its delay.
    Apply(usize),
    /// The requested number of passes is done, or the flag was cleared: leave the loop.
    Finished,
}

/// One step of a PWM blinking loop over a sequence of `frames` frames: from the passes
/// left, the position in the current pass and the flag, the next action, passes left
/// and position.
///
/// The flag is read before every frame, and a cleared flag ends the loop, counted or
/// endless, before the next frame is applied.
pub open spec fn pwm_next(remaining: Option<i32>, position: usize, frames: usize, blinking: bool) -> (
    FrameStep,
    Option<i32>,
    usize,
) {
    if (remaining matches Some(k) && k <= 0) || !blinking {
        (FrameStep::Finished, Some(0i32), 0usize)
    } else if position + 1 == frames {
        (FrameStep::Apply(position), one_less(remaining), 0usize)
    } else {
        (FrameStep::Apply(position), remaining, (position + 1) as usize)
    }
}

/// The steps a counted loop still takes before it finishes.
pub open spec fn pwm_steps_left(remaining: Option<i32>, position: usize, frames: usize) -> int {
    match remaining {
        Some(k) => if k > 0 { k * frames - position } else { 0 },
        None => 0,
    }
}

/// The loop of a PWM blinker (PWM LED, pulse).
#[derive(Debug)]
pub struct PwmBlinkLoop {
    remaining: Option<i32>,
    position: usize,
    frames: usize,
}

impl PwmBlinkLoop {
    #[verifier::type_invariant]
    spec fn position_in_sequence(self) -> bool {
        self.position < self.frames
    }

    /// The passes still to do over the sequence (`None`: until the end of time).
    pub closed spec fn remaining_spec(self) -> Option<i32> {
        self.remaining
    }

    /// The position in the current pass.
    pub closed spec fn position_spec(self) -> usize {
        self.position
    }

    /// The length of the sequence.
    pub closed spec fn frames_spec(self) -> usize {
        self.frames
    }

    /// A loop doing `count` passes (`None`: endless) over a sequence of `frames` frames.
    pub fn new(count: Option<i32>, frames: usize) -> (l: PwmBlinkLoop)
        requires
            frames > 0,
        ensures
            l.remaining_spec() == count,
            l.position_spec() == 0,
            l.frames_spec() == frames,
    {
        PwmBlinkLoop { remaining: count, position: 0, frames }
    }

    /// The next action, given whether the shared flag still says "blinking".
    pub fn step(&mut self, blinking: bool) -> (step: FrameStep)
        ensures
            (step, final(self).remaining_spec(), final(self).position_spec()) == pwm_next(
                old(self).remaining_spec(),
                old(self).position_spec(),
                old(self).frames_spec(),
                blinking,
            ),
            final(self).frames_spec() == old(self).frames_spec(),
            final(self).position_spec() < final(self).frames_spec(),
    {
        proof {
            use_type_invariant(&*self);
        }
        let finished = match self.remaining {
            Some(k) => k <= 0,
            None => false,
        };
        if finished || !blinking {
            self.remaining = Some(0);
            self.position = 0;
            return FrameStep::Finished;
        }
        let at = self.position;
        if at + 1 == self.frames {
            self.remaining = Self::one_pass_done(self.remaining);
            self.position = 0;
        } else {
            self.position = at + 1;
        }
        FrameStep::Apply(at)
    }

    fn one_pass_done(remaining: Option<i32>) -> (r: Option<i32>)
        requires
            !(remaining matches Some(k) && k <= 0),
        ensures
            r == one_less(remaining),
    {
        match remaining {
            Some(k) => Some(k - 1),
            None => None,
        }
    }
}

/// A counted PWM loop always ends: every step that applies a frame lowers the steps it has
/// left, and with the flag set it finishes exactly when none are left.
pub proof fn lemma_counted_pwm_loop_progress(
    k: i32,
    position: usize,
    frames: usize,
    blinking: bool,
)
    requires
        position < frames,
    ensures
        ({
            let (step, next_remaining, next_position) = pwm_next(Some(k), position, frames, blinking);
            &&& blinking ==> (step == FrameStep::Finished <==> pwm_steps_left(Some(k), position, frames)
                == 0)
            &&& step != FrameStep::Finished ==> pwm_steps_left(next_remaining, next_position, frames)
                < pwm_steps_left(Some(k), position, frames)
            &&& next_position < frames
        }),
{
    if k > 0 {
        assert(k * frames >= frames) by (nonlinear_arith)
            requires
                k > 0,
                frames > 0,
        ;
        assert((k - 1) * frames == k * frames - frames) by (nonlinear_arith);
    }
}

/// Once the flag is cleared a PWM loop, counted or endless, applies no further frame: its
/// next step finishes it, and every step after that reports `Finished`, whatever the flag
/// says then.
pub proof fn lemma_pwm_cleared_flag_ends_loop(
    remaining: Option<i32>,
    position: usize,
    frames: usize,
    later_flag: bool,
)
    ensures
        pwm_next(remaining, position, frames, false) == (FrameStep::Finished, Some(0i32), 0usize),
        pwm_next(Some(0i32), 0usize, frames, later_flag).0 == FrameStep::Finished,
{
}

/// The actions of a PWM loop whose flag stays set, for `fuel` steps.
pub open spec fn pwm_run(remaining: Option<i32>, position: usize, frames: usize, fuel: nat) -> Seq<
    FrameStep,
>
    decreases fuel,
{
    if fuel == 0 {
        Seq::empty()
    } else {
        let (step, next_remaining, next_position) = pwm_next(remaining, position, frames, true);
        seq![step] + pwm_run(next_remaining, next_position, frames, (fuel - 1) as nat)
    }
}

/// The rest of one pass, from `position` on, with the flag set.
proof fn lemma_pwm_rest_of_pass(k: i32, position: usize, frames: usize, rest: nat)
    requires
        k > 0,
        position < frames,
    ensures
        pwm_run(Some(k), position, frames, (frames - position) as nat + rest) =~= Seq::new(
            (frames - position) as nat,
            |i: int| FrameStep::Apply((position + i) as usize),
        ) + pwm_run(Some((k - 1) as i32), 0, frames, rest),
    decreases frames - position,
{
    if position + 1 == frames {
        assert(pwm_run(Some(k), position, frames, 1 + rest) == seq![FrameStep::Apply(position)]
            + pwm_run(Some((k - 1) as i32), 0, frames, rest));
    } else {
        lemma_pwm_rest_of_pass(k, (position + 1) as usize, frames, rest);
        assert(pwm_run(Some(k), position, frames, (frames - position) as nat + rest) == seq![
            FrameStep::Apply(position),
        ] + pwm_run(Some(k), (position + 1) as usize, frames, (frames - position - 1) as nat + rest));
    }
}

/// A counted PWM blinker whose flag is never cleared plays its whole sequence, frame by
/// frame in order, exactly `n` times, and then finishes.
pub proof fn lemma_counted_pwm_passes(n: i32, frames: usize)
    requires
        frames > 0,
    ensures
        ({
            let passes: nat = if n > 0 { n as nat } else { 0nat };
            pwm_run(Some(n), 0, frames, passes * (frames as nat) + 1) =~= Seq::new(
                passes * (frames as nat),
                |i: int| FrameStep::Apply((i % (frames as int)) as usize),
            ).push(FrameStep::Finished)
        }),
    decreases (if n > 0 { n as nat } else { 0nat }),
{
    let f = frames as int;
    if n > 0 {
        let m: nat = (n - 1) as nat;
        lemma_counted_pwm_passes((n - 1) as i32, frames);
        assert((n as nat) * (frames as nat) == frames + m * (frames as nat)) by (nonlinear_arith)
            requires
                n > 0,
                m == n - 1,
        ;
        lemma_pwm_rest_of_pass(n, 0, frames, m * (frames as nat) + 1);
        let whole = Seq::new((n as nat) * (frames as nat), |i: int| FrameStep::Apply((i % f) as usize));
        let first = Seq::new(frames as nat, |i: int| FrameStep::Apply((0 + i) as usize));
        let later = Seq::new(m * (frames as nat), |i: int| FrameStep::Apply((i % f) as usize));
        assert forall|i: int| 0 <= i < whole.len() implies whole[i] == (first + later)[i] by {
            if i < f {
                vstd::arithmetic::div_mod::lemma_small_mod(i as nat, frames as nat);
            } else {
                vstd::arithmetic::div_mod::lemma_mod_add_multiples_vanish(i - f, f);
            }
        }
        assert(whole =~= first + later);
    } else {
        assert(pwm_run(Some(0i32), 0, frames, 0) =~= Seq::<FrameStep>::empty());
        assert(pwm_run(Some(n), 0, frames, 1) =~= seq![FrameStep::Finished] + pwm_run(
            Some(0i32),
            0,
            frames,
            0,
        ));
    }
}

/// An endless digital blinker whose flag stays set never finishes: it keeps blinking on,
/// off, on, off, ..., and its count stays endless at every step.
pub proof fn lemma_endless_blink_never_finishes(blinks: nat, off_next: bool)
    ensures
        blink_run(None, false, 2 * blinks) =~= blink_pattern(blinks),
        blink_next(None, off_next, true).1 is None,
        blink_next(None, off_next, true).0 != BlinkStep::Finished,
    decreases blinks,
{
    if blinks > 0 {
        let m: nat = (blinks - 1) as nat;
        lemma_endless_blink_never_finishes(m, off_next);
        assert(blink_run(None, true, 2 * m + 1) == seq![BlinkStep::TurnOff] + blink_run(
            None,
            false,
            2 * m,
        ));
        assert(blink_run(None, false, 2 * blinks) == seq![BlinkStep::TurnOn] + blink_run(
            None,
            true,
            2 * m + 1,
        ));
        assert(blink_pattern(blinks) == seq![BlinkStep::TurnOn, BlinkStep::TurnOff]
            + blink_pattern(m));
    } else {
        assert(blink_run(None, false, 0) =~= Seq::<BlinkStep>::empty());
    }
}

/// An endless PWM loop whose flag stays set, started anywhere in its sequence, applies the
/// frames in order, wrapping round at the end, and never finishes; its count stays endless.
pub proof fn lemma_endless_pwm_repeats_from(position: usize, frames: usize, steps: nat)
    requires
        position < frames,
    ensures
        pwm_run(None, position, frames, steps) =~= Seq::new(
            steps,
            |i: int| FrameStep::Apply(((position + i) % (frames as int)) as usize),
        ),
        pwm_next(None, position, frames, true).1 is None,
    decreases steps,
{
    let f = frames as int;
    if steps > 0 {
        let next_position: usize = if position + 1 == frames { 0 } else { (position + 1) as usize };
        lemma_endless_pwm_repeats_from(next_position, frames, (steps - 1) as nat);
        let whole = Seq::new(
            steps,
            |i: int| FrameStep::Apply(((position + i) % f) as usize),
        );
        let rest = Seq::new(
            (steps - 1) as nat,
            |i: int| FrameStep::Apply(((next_position + i) % f) as usize),
        );
        assert(pwm_run(None, position, frames, steps) == seq![FrameStep::Apply(position)] + rest);
        assert forall|i: int| 0 <= i < whole.len() implies whole[i] == (seq![
            FrameStep::Apply(position),
        ] + rest)[i] by {
            if i == 0 {
                vstd::arithmetic::div_mod::lemma_small_mod(position as nat, frames as nat);
            } else if position + 1 == frames {
                vstd::arithmetic::div_mod::lemma_mod_add_multiples_vanish(i - 1, f);
                assert(position + i == f + (i - 1));
            } else {
                assert(next_position + (i - 1) == position + i);
            }
        }
        assert(whole =~= seq![FrameStep::Apply(position)] + rest);
    } else {
        assert(pwm_run(None, position, frames, 0) =~= Seq::<FrameStep>::empty());
    }
}

/// An endless PWM blink or pulse whose flag stays set plays its sequence over and over,
/// frame by frame, and never finishes by itself.
pub proof fn lemma_endless_pwm_repeats(frames: usize, steps: nat)
    requires
        frames > 0,
    ensures
        pwm_run(None, 0, frames, steps) =~= Seq::new(
            steps,
            |i: int| FrameStep::Apply((i % (frames as int)) as usize),
        ),
{
    lemma_endless_pwm_repeats_from(0, frames, steps);
    assert(Seq::new(steps, |i: int| FrameStep::Apply(((0usize + i) % (frames as int)) as usize))
        =~= Seq::new(steps, |i: int| FrameStep::Apply((i % (frames as int)) as usize)));
}

/// A fade gets one frame for every whole 40 ms (1/25 s) it lasts.
pub proof fn lemma_fade_frame_per_40_millis(millis: u32)
    ensures
        fade_frame_count(millis) * 40 <= millis < (fade_frame_count(millis) + 1) * 40,
{
}

/// One blink's frames: the fade-in frames numbered from 0, then On, then the fade-out
/// frames numbered from 0, then Off, and nothing else.
pub proof fn lemma_blink_frames_layout(fade_in_frames: nat, fade_out_frames: nat)
    ensures
        ({
            let frames = blink_frames(fade_in_frames, fade_out_frames);
            &&& frames.len() == fade_in_frames + fade_out_frames + 2
            &&& forall|i: int| 0 <= i < fade_in_frames ==> frames[i] == Frame::FadeIn(i as u32)
            &&& frames[fade_in_frames as int] == Frame::On
            &&& forall|j: int|
                0 <= j < fade_out_frames ==> #[trigger] frames[fade_in_frames + 1 + j] == Frame::FadeOut(
                    j as u32,
                )
            &&& frames[(fade_in_frames + fade_out_frames + 1) as int] == Frame::Off
        }),
{
}

} // verus!
