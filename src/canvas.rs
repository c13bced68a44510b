use vstd::prelude::*;
use crate::animation::{Animation, AnimationState};
use crate::clock::{Clock, delta_spec};
use crate::interpolate::Vec3;
use crate::transform::{Property, Transform};

verus! {

/// An animation that drives one property of one transform of a canvas.
#[derive(Debug)]
pub struct Binding {
    /// Index of the driven transform.
    pub target: usize,
    pub property: Property,
    pub animation: Animation<Vec3>,
}

impl Binding {
    /// Whether the binding writes its value into its target on an update.
    pub open spec fn writes(self) -> bool {
        self.animation@.state != AnimationState::Pending
    }
}

/// Reasons a canvas refuses a request.
#[derive(Clone, Copy, Debug, PartialEq, Eq, Structural)]
pub enum SceneError {
    /// No transform has the given index.
    UnknownTransform,
    /// No animation has the given index.
    UnknownAnimation,
}

/// The transforms after the bindings, in order, wrote their values; a later binding
/// overwrites what an earlier one wrote to the same property.
pub open spec fn apply_bindings(ts: Seq<Transform>, bs: Seq<Binding>) -> Seq<Transform>
    decreases bs.len(),
{
    if bs.len() == 0 {
        ts
    } else {
        let prev = apply_bindings(ts, bs.drop_last());
        let b = bs.last();
        if b.writes() && b.target < prev.len() {
            prev.update(b.target as int, prev[b.target as int].with(b.property, b.animation@.value()))
        } else {
            prev
        }
    }
}

proof fn lemma_apply_len(ts: Seq<Transform>, bs: Seq<Binding>)
    ensures
        apply_bindings(ts, bs).len() == ts.len(),
    decreases bs.len(),
{
    if bs.len() > 0 {
        lemma_apply_len(ts, bs.drop_last());
    }
}

/// When several animations drive the same property, the one added last decides its value
/// after an update: whatever the earlier ones wrote is overwritten.
pub proof fn lemma_last_binding_wins(ts: Seq<Transform>, bs: Seq<Binding>)
    requires
        bs.len() > 0,
        bs.last().writes(),
        bs.last().target < ts.len(),
    ensures
        apply_bindings(ts, bs)[bs.last().target as int].get_spec(bs.last().property)
            == bs.last().animation@.value(),
{
    lemma_apply_len(ts, bs.drop_last());
    let prev = apply_bindings(ts, bs.drop_last());
    let b = bs.last();
    assert(prev[b.target as int].with(b.property, b.animation@.value()).get_spec(b.property)
        == b.animation@.value());
}

/// The update capability of a scene participant: it advances its own state by the time
/// that passed. It is handed nothing of the canvas, so it issues no draw call.
pub trait Update {
    fn update(&mut self, dt: u64);
}

/// The render capability of a scene participant: it reads the transforms, and can change
/// none of them.
pub trait Render {
    fn render(&mut self, transforms: &[Transform]);
}

/// One participant call of a frame.
#[derive(Clone, Copy, Debug, PartialEq, Eq, Structural)]
pub enum Phase {
    /// Participant `i` was updated by `dt`.
    Update(usize, u64),
    /// Participant `i` rendered.
    Render(usize),
}

/// The participant calls of one frame over `n` participants, each with the transforms the
/// canvas held at that call: every update, in order, then every render, in order.
pub open spec fn frame_record(n: nat, dt: u64, ts: Seq<Transform>) -> Seq<(Phase, Seq<Transform>)> {
    Seq::new(n, |i: int| (Phase::Update(i as usize, dt), ts)) + Seq::new(n, |i: int| (Phase::Render(i as usize), ts))
}

/// The canvas: a clock, the transforms of a scene and the animations that drive them.
///
/// Each tick reads the clock, advances every animation in the order they were added and
/// writes their values into their targets; rendering then reads the transforms.
pub struct Canvas {
    clock: Clock,
    transforms: Vec<Transform>,
    bindings: Vec<Binding>,
    frames: Ghost<Seq<(Phase, Seq<Transform>)>>,
}

impl Canvas {
    pub closed spec fn clock_state(self) -> Clock {
        self.clock
    }

    /// The transforms, by index.
    pub closed spec fn transform_seq(self) -> Seq<Transform> {
        self.transforms@
    }

    /// The animations with their targets, in the order they were added.
    pub closed spec fn binding_seq(self) -> Seq<Binding> {
        self.bindings@
    }

    /// The participant calls `frame` has issued, in order, each with the transforms the
    /// canvas held at that call.
    pub closed spec fn frames(self) -> Seq<(Phase, Seq<Transform>)> {
        self.frames@
    }

    /// Every animation is well formed and drives an existing transform.
    pub closed spec fn wf(self) -> bool {
        forall|i: int|
            0 <= i < self.bindings@.len() ==> {
                &&& (#[trigger] self.bindings@[i]).animation.wf()
                &&& self.bindings@[i].target < self.transforms@.len()
            }
    }

    /// A canvas with no transforms, whose clock starts at `now`.
    pub fn new(now: u64) -> (r: Canvas)
        ensures
            r.wf(),
            r.clock_state() == Clock::new_spec(now),
            r.transform_seq().len() == 0,
            r.binding_seq().len() == 0,
            r.frames().len() == 0,
    {
        Canvas { clock: Clock::new(now), transforms: Vec::new(), bindings: Vec::new(), frames: Ghost(Seq::empty()) }
    }

    /// Adds a transform and returns its index.
    pub fn add_transform(&mut self, t: Transform) -> (r: usize)
        requires
            old(self).wf(),
        ensures
            final(self).wf(),
            r == old(self).transform_seq().len(),
            final(self).transform_seq() == old(self).transform_seq().push(t),
            final(self).binding_seq() == old(self).binding_seq(),
            final(self).clock_state() == old(self).clock_state(),
    {
        let r = self.transforms.len();
        self.transforms.push(t);
        r
    }

    /// Attaches an animation to a property of a transform and returns its index.
    pub fn add_animation(&mut self, target: usize, property: Property, animation: Animation<Vec3>) -> (r: Result<usize, SceneError>)
        requires
            old(self).wf(),
            animation.wf(),
        ensures
            final(self).wf(),
            final(self).transform_seq() == old(self).transform_seq(),
            final(self).clock_state() == old(self).clock_state(),
            target >= old(self).transform_seq().len() ==> r == Err::<usize, SceneError>(SceneError::UnknownTransform),
            target < old(self).transform_seq().len() ==> r is Ok,
            target >= old(self).transform_seq().len() ==> final(self).binding_seq() == old(self).binding_seq(),
            r matches Ok(i) ==> i == old(self).binding_seq().len() && final(self).binding_seq() == old(self).binding_seq().push(Binding { target, property, animation }),
    {
        if target >= self.transforms.len() {
            return Err(SceneError::UnknownTransform);
        }
        let r = self.bindings.len();
        self.bindings.push(Binding { target, property, animation });
        proof {
            assert(self.bindings@.last() == (Binding { target, property, animation }));
            assert forall|i: int| 0 <= i < self.bindings@.len() implies {
                &&& (#[trigger] self.bindings@[i]).animation.wf()
                &&& self.bindings@[i].target < self.transforms@.len()
            } by {
                if i < old(self).bindings@.len() {
                    assert(self.bindings@[i] == old(self).bindings@[i]);
                }
            }
        }
        Ok(r)
    }

    /// Starts the animation with the given index.
    pub fn start_animation(&mut self, index: usize) -> (r: Result<(), SceneError>)
        requires
            old(self).wf(),
        ensures
            final(self).wf(),
            final(self).transform_seq() == old(self).transform_seq(),
            final(self).clock_state() == old(self).clock_state(),
            final(self).binding_seq().len() == old(self).binding_seq().len(),
            index >= old(self).binding_seq().len() ==> r == Err::<(), SceneError>(SceneError::UnknownAnimation),
            index < old(self).binding_seq().len() ==> r is Ok,
            index >= old(self).binding_seq().len() ==> final(self).binding_seq() == old(self).binding_seq(),
            index < old(self).binding_seq().len() ==> {
                let b = old(self).binding_seq()[index as int];
                &&& final(self).binding_seq()[index as int].target == b.target
                &&& final(self).binding_seq()[index as int].property == b.property
                &&& final(self).binding_seq()[index as int].animation@ == b.animation@.rewound(
                    AnimationState::Running,
                )
            },
            forall|i: int| 0 <= i < old(self).binding_seq().len() && i != index ==> final(self).binding_seq()[i] == old(self).binding_seq()[i],
    {
        if index >= self.bindings.len() {
            return Err(SceneError::UnknownAnimation);
        }
        self.bindings[index].animation.start();
        Ok(())
    }

    /// Runs the update phase: advances every animation by `dt` in the order they were
    /// added, then writes the value of each one that has started into its target.
    pub fn update(&mut self, dt: u64)
        requires
            old(self).wf(),
        ensures
            final(self).wf(),
            final(self).clock_state() == old(self).clock_state(),
            final(self).binding_seq().len() == old(self).binding_seq().len(),
            forall|i: int| 0 <= i < old(self).binding_seq().len() ==> {
                &&& (#[trigger] final(self).binding_seq()[i]).target == old(self).binding_seq()[i].target
                &&& final(self).binding_seq()[i].property == old(self).binding_seq()[i].property
                &&& final(self).binding_seq()[i].animation@ == old(self).binding_seq()[i].animation@.advanced(dt)
            },
            final(self).transform_seq() == apply_bindings(old(self).transform_seq(), final(self).binding_seq()),
            final(self).frames() == old(self).frames(),
    {
        let n = self.bindings.len();
        let mut i: usize = 0;
        while i < n
            invariant
                0 <= i <= n,
                n == self.bindings@.len(),
                n == old(self).bindings@.len(),
                self.clock == old(self).clock,
                self.frames == old(self).frames,
                self.transforms@.len() == old(self).transforms@.len(),
                forall|j: int| 0 <= j < n ==> {
                    &&& (#[trigger] self.bindings@[j]).animation.wf()
                    &&& self.bindings@[j].target < self.transforms@.len()
                    &&& self.bindings@[j].target == old(self).bindings@[j].target
                    &&& self.bindings@[j].property == old(self).bindings@[j].property
                },
                forall|j: int| 0 <= j < i ==> (#[trigger] self.bindings@[j]).animation@ == old(self).bindings@[j].animation@.advanced(dt),
                forall|j: int| i <= j < n ==> (#[trigger] self.bindings@[j]).animation@ == old(self).bindings@[j].animation@,
                self.transforms@ == apply_bindings(old(self).transforms@, self.bindings@.take(i as int)),
            decreases n - i,
        {
            let ghost before = self.bindings@;
            self.bindings[i].animation.advance(dt);
            assert(self.bindings@.take(i as int) =~= before.take(i as int));
            let target = self.bindings[i].target;
            let property = self.bindings[i].property;
            if self.bindings[i].animation.state() != AnimationState::Pending {
                let v = self.bindings[i].animation.value();
                self.transforms[target].set(property, v);
            }
            proof {
                let bs = self.bindings@.take(i + 1);
                assert(bs.drop_last() =~= self.bindings@.take(i as int));
                assert(bs.last() == self.bindings@[i as int]);
                lemma_apply_len(old(self).transforms@, self.bindings@.take(i as int));
            }
            i = i + 1;
        }
        proof {
            assert(self.bindings@.take(n as int) =~= self.bindings@);
        }
    }

    /// One frame's update: reads the clock at `now` and updates by the time that passed.
    pub fn tick(&mut self, now: u64) -> (dt: u64)
        requires
            old(self).wf(),
        ensures
            final(self).wf(),
            dt == delta_spec(old(self).clock_state().last, now),
            final(self).clock_state().last == now,
            final(self).binding_seq().len() == old(self).binding_seq().len(),
            forall|i: int| 0 <= i < old(self).binding_seq().len() ==> {
                &&& (#[trigger] final(self).binding_seq()[i]).target == old(self).binding_seq()[i].target
                &&& final(self).binding_seq()[i].property == old(self).binding_seq()[i].property
                &&& final(self).binding_seq()[i].animation@ == old(self).binding_seq()[i].animation@.advanced(dt)
            },
            final(self).transform_seq() == apply_bindings(old(self).transform_seq(), final(self).binding_seq()),
            final(self).frames() == old(self).frames(),
    {
        let dt = self.clock.advance(now);
        self.update(dt);
        dt
    }

    /// One full frame: the canvas update (`tick`), then every participant's update by the
    /// same `dt` in order, then every participant's render in order, each render handed the
    /// updated transforms, which no participant can change.
    pub fn frame<P: Update + Render>(&mut self, now: u64, participants: &mut Vec<P>) -> (dt: u64)
        requires
            old(self).wf(),
        ensures
            final(self).wf(),
            dt == delta_spec(old(self).clock_state().last, now),
            final(self).clock_state().last == now,
            final(self).binding_seq().len() == old(self).binding_seq().len(),
            forall|i: int| 0 <= i < old(self).binding_seq().len() ==> {
                &&& (#[trigger] final(self).binding_seq()[i]).target == old(self).binding_seq()[i].target
                &&& final(self).binding_seq()[i].property == old(self).binding_seq()[i].property
                &&& final(self).binding_seq()[i].animation@ == old(self).binding_seq()[i].animation@.advanced(dt)
            },
            final(self).transform_seq() == apply_bindings(old(self).transform_seq(), final(self).binding_seq()),
            final(self).frames() == old(self).frames() + frame_record(old(participants)@.len(), dt, final(self).transform_seq()),
            final(participants)@.len() == old(participants)@.len(),
    {
        let dt = self.tick(now);
        let n = participants.len();
        let ghost ts = self.transforms@;
        let ghost mut rec: Seq<(Phase, Seq<Transform>)> = Seq::empty();
        let mut i: usize = 0;
        while i < n
            invariant
                n == participants@.len(),
                i <= n,
                rec == Seq::new(i as nat, |j: int| (Phase::Update(j as usize, dt), ts)),
            decreases n - i,
        {
            participants[i].update(dt);
            proof {
                rec = rec.push((Phase::Update(i, dt), ts));
                assert(rec =~= Seq::new((i + 1) as nat, |j: int| (Phase::Update(j as usize, dt), ts)));
            }
            i = i + 1;
        }
        let ghost updates = rec;
        let mut k: usize = 0;
        while k < n
            invariant
                n == participants@.len(),
                k <= n,
                ts == self.transforms@,
                rec == updates + Seq::new(k as nat, |j: int| (Phase::Render(j as usize), ts)),
            decreases n - k,
        {
            participants[k].render(self.transforms.as_slice());
            proof {
                let next = Seq::new((k + 1) as nat, |j: int| (Phase::Render(j as usize), ts));
                assert(next =~= Seq::new(k as nat, |j: int| (Phase::Render(j as usize), ts)).push((Phase::Render(k), ts)));
                rec = rec.push((Phase::Render(k), ts));
                assert(rec =~= updates + next);
            }
            k = k + 1;
        }
        proof {
            assert(rec =~= frame_record(n as nat, dt, ts));
            self.frames = Ghost(self.frames@ + rec);
        }
        dt
    }

    /// The clock, as of the last tick.
    pub fn clock(&self) -> (r: Clock)
        ensures
            r == self.clock_state(),
    {
        self.clock
    }

    pub fn transform_count(&self) -> (r: usize)
        ensures
            r == self.transform_seq().len(),
    {
        self.transforms.len()
    }

    pub fn animation_count(&self) -> (r: usize)
        ensures
            r == self.binding_seq().len(),
    {
        self.bindings.len()
    }

    /// The transform with the given index.
    pub fn transform(&self, index: usize) -> (r: Option<Transform>)
        ensures
            index < self.transform_seq().len() ==> r == Some(self.transform_seq()[index as int]),
            index >= self.transform_seq().len() ==> r is None,
    {
        if index < self.transforms.len() {
            Some(self.transforms[index])
        } else {
            None
        }
    }

    /// The state of the animation with the given index.
    pub fn animation_state(&self, index: usize) -> (r: Option<AnimationState>)
        ensures
            index < self.binding_seq().len() ==> r == Some(self.binding_seq()[index as int].animation@.state),
            index >= self.binding_seq().len() ==> r is None,
    {
        if index < self.bindings.len() {
            Some(self.bindings[index].animation.state())
        } else {
            None
        }
    }
}

/// What a well-formed canvas guarantees its callers: every animation is well formed (so
/// its duration is above zero) and drives a transform that exists.
pub proof fn lemma_canvas_wf(c: Canvas)
    requires
        c.wf(),
    ensures
        forall|i: int|
            0 <= i < c.binding_seq().len() ==> {
                &&& (#[trigger] c.binding_seq()[i]).animation.wf()
                &&& c.binding_seq()[i].animation@.duration > 0
                &&& c.binding_seq()[i].target < c.transform_seq().len()
            },
{
}

} // verus!
