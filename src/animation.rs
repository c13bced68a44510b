use vstd::prelude::*;
use crate::interpolate::{Fraction, Interpolate};

verus! {

/// How an animation behaves once its duration has passed.
#[derive(Clone, Copy, Debug, PartialEq, Eq, Structural)]
pub enum LoopMode {
    /// Runs once and stops at the end value.
    Once,
    /// Starts over from the start value.
    Loop,
    /// Runs back and forth between the two values.
    PingPong,
}

/// Where an animation is in its life.
#[derive(Clone, Copy, Debug, PartialEq, Eq, Structural)]
pub enum AnimationState {
    Pending,
    Running,
    Finished,
}

/// Maps the linear position of an animation to the position used for blending.
#[derive(Clone, Copy, Debug, PartialEq, Eq, Structural)]
pub enum Easing {
    /// The identity.
    Linear,
    /// `t * t`: starts slowly.
    QuadIn,
    /// `1 - (1 - t) * (1 - t)`: ends slowly.
    QuadOut,
}

/// Reasons an animation cannot be built.
#[derive(Clone, Copy, Debug, PartialEq, Eq, Structural)]
pub enum AnimationError {
    /// The duration is zero.
    InvalidDuration,
}

/// The eased position, over the same denominator as `t`.
pub open spec fn ease_spec(e: Easing, t: Fraction) -> Fraction {
    match e {
        Easing::Linear => t,
        Easing::QuadIn => Fraction { num: (t.num as int * t.num as int / t.den as int) as u64, den: t.den },
        Easing::QuadOut => Fraction {
            num: (t.den - (t.den - t.num) as int * (t.den - t.num) as int / t.den as int) as u64,
            den: t.den,
        },
    }
}

proof fn lemma_square_ratio(n: int, d: int)
    requires
        0 <= n <= d,
        0 < d,
    ensures
        0 <= n * n / d <= n,
{
    assert(0 <= n * n <= n * d) by (nonlinear_arith)
        requires
            0 <= n <= d,
    ;
    vstd::arithmetic::div_mod::lemma_div_is_ordered(n * n, n * d, d);
    vstd::arithmetic::div_mod::lemma_div_is_ordered(0, n * n, d);
    assert(n * d == d * n) by (nonlinear_arith);
    vstd::arithmetic::div_mod::lemma_div_multiples_vanish(n, d);
}

/// Applies an easing to a position.
pub fn ease(e: Easing, t: Fraction) -> (r: Fraction)
    requires
        t.wf(),
    ensures
        r == ease_spec(e, t),
        r.wf(),
        t.num == 0 ==> r.num == 0,
        t.num == t.den ==> r.num == r.den,
{
    match e {
        Easing::Linear => t,
        Easing::QuadIn => {
            proof {
                lemma_square_ratio(t.num as int, t.den as int);
                assert(t.num * t.num <= u64::MAX * u64::MAX) by (nonlinear_arith)
                    requires
                        t.num <= u64::MAX,
                ;
                if t.num == t.den {
                    vstd::arithmetic::div_mod::lemma_div_multiples_vanish(t.num as int, t.den as int);
                }
            }
            let n: u128 = t.num as u128;
            Fraction { num: (n * n / (t.den as u128)) as u64, den: t.den }
        },
        Easing::QuadOut => {
            let m: u64 = t.den - t.num;
            proof {
                lemma_square_ratio(m as int, t.den as int);
                assert(m * m <= u64::MAX * u64::MAX) by (nonlinear_arith)
                    requires
                        m <= u64::MAX,
                ;
                if t.num == 0 {
                    vstd::arithmetic::div_mod::lemma_div_multiples_vanish(m as int, t.den as int);
                }
            }
            let w: u128 = m as u128;
            let q: u64 = (w * w / (t.den as u128)) as u64;
            Fraction { num: t.den - q, den: t.den }
        },
    }
}

/// What an animation is, as the contracts see it.
pub struct AnimationView<T> {
    pub from: T,
    pub to: T,
    /// Length of one traversal.
    pub duration: u64,
    /// Time into the current traversal.
    pub elapsed: u64,
    /// In ping-pong mode, whether the value moves towards `to`.
    pub forward: bool,
    pub mode: LoopMode,
    pub state: AnimationState,
    pub easing: Easing,
}

impl<T: Interpolate> AnimationView<T> {
    pub open spec fn wf(self) -> bool {
        &&& self.duration > 0
        &&& self.elapsed <= self.duration
        &&& self.mode == LoopMode::Loop ==> self.elapsed < self.duration
        &&& self.mode != LoopMode::PingPong ==> self.forward
        &&& self.state == AnimationState::Finished ==> self.mode == LoopMode::Once
            && self.elapsed == self.duration
        &&& (self.state == AnimationState::Running && self.mode == LoopMode::Once) ==> self.elapsed
            < self.duration
    }

    /// The linear position within the current traversal.
    pub open spec fn position(self) -> Fraction {
        Fraction { num: self.elapsed, den: self.duration }
    }

    /// The value the animation currently produces.
    pub open spec fn value(self) -> T {
        T::blend_spec(self.from, self.to, ease_spec(self.easing, self.position()))
    }

    /// The animation after `dt` more time units: only a running animation moves.
    pub open spec fn advanced(self, dt: u64) -> Self {
        if self.state != AnimationState::Running {
            self
        } else {
            match self.mode {
                LoopMode::Once => {
                    if self.elapsed + dt >= self.duration {
                        AnimationView { elapsed: self.duration, state: AnimationState::Finished, ..self }
                    } else {
                        AnimationView { elapsed: (self.elapsed + dt) as u64, ..self }
                    }
                },
                LoopMode::Loop => AnimationView {
                    elapsed: ((self.elapsed + dt) % (self.duration as int)) as u64,
                    ..self
                },
                LoopMode::PingPong => {
                    let period = 2 * self.duration;
                    let p = if self.forward {
                        self.elapsed as int
                    } else {
                        period - self.elapsed
                    };
                    let q = (p + dt) % period;
                    if q <= self.duration {
                        AnimationView { elapsed: q as u64, forward: true, ..self }
                    } else {
                        AnimationView { elapsed: (period - q) as u64, forward: false, ..self }
                    }
                },
            }
        }
    }

    /// The animation after each of `dts` in turn.
    pub open spec fn advanced_all(self, dts: Seq<u64>) -> Self
        decreases dts.len(),
    {
        if dts.len() == 0 {
            self
        } else {
            self.advanced(dts[0]).advanced_all(dts.drop_first())
        }
    }

    /// The animation set back to the start of its first traversal, in the given state.
    pub open spec fn rewound(self, state: AnimationState) -> Self {
        AnimationView { elapsed: 0, forward: true, state, ..self }
    }
}

/// A timed transition of one value from `from` to `to`.
#[derive(Clone, Debug)]
pub struct Animation<T> {
    from: T,
    to: T,
    duration: u64,
    elapsed: u64,
    forward: bool,
    mode: LoopMode,
    state: AnimationState,
    easing: Easing,
}

impl<T> View for Animation<T> {
    type V = AnimationView<T>;

    closed spec fn view(&self) -> AnimationView<T> {
        AnimationView {
            from: self.from,
            to: self.to,
            duration: self.duration,
            elapsed: self.elapsed,
            forward: self.forward,
            mode: self.mode,
            state: self.state,
            easing: self.easing,
        }
    }
}

impl<T: Interpolate> Animation<T> {
    /// Creates a pending animation; a zero duration is refused.
    pub fn new(from: T, to: T, duration: u64, mode: LoopMode, easing: Easing) -> (r: Result<
        Self,
        AnimationError,
    >)
        ensures
            duration == 0 ==> r == Err::<Self, AnimationError>(AnimationError::InvalidDuration),
            duration > 0 ==> r is Ok,
            r matches Ok(a) ==> a@ == (AnimationView {
                from,
                to,
                duration,
                elapsed: 0,
                forward: true,
                mode,
                state: AnimationState::Pending,
                easing,
            }),
            r matches Ok(a) ==> a.wf(),
    {
        if duration == 0 {
            Err(AnimationError::InvalidDuration)
        } else {
            Ok(
                Animation {
                    from,
                    to,
                    duration,
                    elapsed: 0,
                    forward: true,
                    mode,
                    state: AnimationState::Pending,
                    easing,
                },
            )
        }
    }

    /// Every animation the library hands out satisfies this.
    pub open spec fn wf(&self) -> bool {
        self@.wf()
    }

    /// Starts (or restarts) the animation from its start value.
    pub fn start(&mut self)
        requires
            old(self).wf(),
        ensures
            final(self).wf(),
            final(self)@ == old(self)@.rewound(AnimationState::Running),
    {
        self.elapsed = 0;
        self.forward = true;
        self.state = AnimationState::Running;
    }

    /// Stops the animation and returns it to its start value.
    pub fn reset(&mut self)
        requires
            old(self).wf(),
        ensures
            final(self).wf(),
            final(self)@ == old(self)@.rewound(AnimationState::Pending),
    {
        self.elapsed = 0;
        self.forward = true;
        self.state = AnimationState::Pending;
    }

    /// Moves the animation `dt` time units on; only a running animation moves.
    pub fn advance(&mut self, dt: u64)
        requires
            old(self).wf(),
        ensures
            final(self).wf(),
            final(self)@ == old(self)@.advanced(dt),
    {
        if self.state != AnimationState::Running {
            return ;
        }
        match self.mode {
            LoopMode::Once => {
                if dt >= self.duration - self.elapsed {
                    self.elapsed = self.duration;
                    self.state = AnimationState::Finished;
                } else {
                    self.elapsed = self.elapsed + dt;
                }
            },
            LoopMode::Loop => {
                let e: u128 = (self.elapsed as u128 + dt as u128) % (self.duration as u128);
                self.elapsed = e as u64;
            },
            LoopMode::PingPong => {
                let period: u128 = 2 * (self.duration as u128);
                let p: u128 = if self.forward {
                    self.elapsed as u128
                } else {
                    period - self.elapsed as u128
                };
                let q: u128 = (p + dt as u128) % period;
                if q <= self.duration as u128 {
                    self.elapsed = q as u64;
                    self.forward = true;
                } else {
                    self.elapsed = (period - q) as u64;
                    self.forward = false;
                }
            },
        }
    }

    /// The linear position within the current traversal.
    pub fn position(&self) -> (r: Fraction)
        requires
            self.wf(),
        ensures
            r == self@.position(),
            r.wf(),
    {
        Fraction { num: self.elapsed, den: self.duration }
    }

    /// The value the animation currently produces.
    pub fn value(&self) -> (r: T)
        requires
            self.wf(),
        ensures
            r == self@.value(),
    {
        let t = ease(self.easing, self.position());
        T::blend(&self.from, &self.to, t)
    }

    pub fn state(&self) -> (r: AnimationState)
        ensures
            r == self@.state,
    {
        self.state
    }

    pub fn is_finished(&self) -> (r: bool)
        ensures
            r == (self@.state == AnimationState::Finished),
    {
        self.state == AnimationState::Finished
    }

    /// Time into the current traversal.
    pub fn elapsed(&self) -> (r: u64)
        ensures
            r == self@.elapsed,
    {
        self.elapsed
    }

    /// Whether the value moves towards the end value (always, but in ping-pong mode).
    pub fn is_forward(&self) -> (r: bool)
        ensures
            r == self@.forward,
    {
        self.forward
    }

    pub fn duration(&self) -> (r: u64)
        ensures
            r == self@.duration,
    {
        self.duration
    }

    pub fn mode(&self) -> (r: LoopMode)
        ensures
            r == self@.mode,
    {
        self.mode
    }
}

/// The sum of a sequence of time steps.
pub open spec fn total(dts: Seq<u64>) -> int
    decreases dts.len(),
{
    if dts.len() == 0 {
        0
    } else {
        dts[0] + total(dts.drop_first())
    }
}

/// A finished animation is inert: advancing it changes neither its state nor its value.
pub proof fn lemma_finished_is_inert<T: Interpolate>(a: AnimationView<T>, dt: u64)
    requires
        a.wf(),
        a.state == AnimationState::Finished,
    ensures
        a.advanced(dt) == a,
        a.advanced(dt).value() == a.value(),
{
}

/// A finished animation stays finished, with the same value, through any number of steps.
pub proof fn lemma_finished_stays<T: Interpolate>(a: AnimationView<T>, dts: Seq<u64>)
    requires
        a.wf(),
        a.state == AnimationState::Finished,
    ensures
        a.advanced_all(dts) == a,
    decreases dts.len(),
{
    if dts.len() > 0 {
        lemma_finished_stays(a.advanced(dts[0]), dts.drop_first());
    }
}

/// A running once-mode animation whose steps add up to at least what is left of its
/// duration ends finished, at its end value, and further steps leave it as it is.
pub proof fn lemma_once_finishes<T: Interpolate>(a: AnimationView<T>, dts: Seq<u64>, more: Seq<u64>)
    requires
        a.wf(),
        a.mode == LoopMode::Once,
        a.state == AnimationState::Running,
        a.elapsed + total(dts) >= a.duration,
    ensures
        a.advanced_all(dts).wf(),
        a.advanced_all(dts).state == AnimationState::Finished,
        a.advanced_all(dts).value() == T::blend_spec(
            a.from,
            a.to,
            ease_spec(a.easing, Fraction { num: a.duration, den: a.duration }),
        ),
        a.advanced_all(dts).advanced_all(more) == a.advanced_all(dts),
    decreases dts.len(),
{
    let b = a.advanced(dts[0]);
    if a.elapsed + dts[0] >= a.duration {
        lemma_finished_stays(b, dts.drop_first());
    } else {
        lemma_once_finishes(b, dts.drop_first(), more);
    }
    lemma_finished_stays(a.advanced_all(dts), more);
}

/// A running loop-mode animation is periodic: advancing it by its duration gives back
/// the same animation, and so the same value.
pub proof fn lemma_loop_periodic<T: Interpolate>(a: AnimationView<T>)
    requires
        a.wf(),
        a.mode == LoopMode::Loop,
    ensures
        a.advanced(a.duration) == a,
        a.advanced(a.duration).value() == a.value(),
{
    let d = a.duration as int;
    let e = a.elapsed as int;
    vstd::arithmetic::div_mod::lemma_mod_add_multiples_vanish(e, d);
    vstd::arithmetic::div_mod::lemma_small_mod(e as nat, d as nat);
}

} // verus!
