//! Short sprite animations, such as the spark left where a bullet hits.
use vstd::prelude::*;

use crate::components::GameState;

verus! {

/// An animation that shows each of its `count` sprites for `speed` frames.
/// `frame` counts the frames shown so far.
#[derive(Debug)]
pub struct Animation {
    pub frame: u32,
    pub speed: u32,
    pub count: u32,
    pub keys: Vec<String>,
}

/// What to do with an animation in the current frame.
#[derive(Clone, Copy, Debug, PartialEq, Eq, Structural)]
pub enum AnimationStep {
    /// The animation has run its course: remove it.
    Finished,
    /// Draw the sprite `keys[i]`.
    Show(usize),
}

impl Animation {
    /// The number of frames the animation runs for.
    pub open spec fn length(&self) -> int {
        self.count * self.speed
    }

    /// The animation runs as built: it shows each sprite for at least one
    /// frame, has a sprite for each of its steps, its length fits its
    /// counter, and it has not run its course.
    pub open spec fn wf(&self) -> bool {
        &&& self.speed > 0
        &&& self.count <= self.keys.len()
        &&& self.length() <= u32::MAX
        &&& self.frame < self.length()
    }

    /// The animation can take one more step: its length and next frame fit
    /// the counter, and the next frame either ends it or has a sprite.
    pub open spec fn can_step(&self) -> bool {
        &&& self.speed > 0
        &&& self.length() <= u32::MAX
        &&& self.frame < u32::MAX
        &&& (self.frame + 1 == self.length() || (self.frame + 1) / (self.speed as int) < self.keys.len())
    }

    /// Whether the animation can take one more step (see
    /// [`Animation::can_step`]).
    pub fn can_advance(&self) -> (r: bool)
        ensures
            r == self.can_step(),
    {
        if self.speed == 0 || self.frame == u32::MAX {
            return false;
        }
        let (c, s) = (self.count as u64, self.speed as u64);
        assert(c * s <= 0xffff_ffffu64 * 0xffff_ffffu64) by (nonlinear_arith)
            requires
                c <= 0xffff_ffffu64,
                s <= 0xffff_ffffu64,
        ;
        let total = c * s;
        if total > u32::MAX as u64 {
            return false;
        }
        let next = self.frame + 1;
        next as u64 == total || ((next / self.speed) as usize) < self.keys.len()
    }

    /// Moves the animation on by one frame: it is finished when the frame
    /// counter reaches its length, and shows sprite `frame / speed` else.
    pub fn advance(&mut self) -> (step: AnimationStep)
        requires
            old(self).can_step(),
        ensures
            final(self).frame == old(self).frame + 1,
            final(self).speed == old(self).speed,
            final(self).count == old(self).count,
            final(self).keys == old(self).keys,
            step == (if final(self).frame == old(self).length() {
                AnimationStep::Finished
            } else {
                AnimationStep::Show((final(self).frame / final(self).speed) as usize)
            }),
            step matches AnimationStep::Show(i) ==> i < old(self).keys.len(),
            old(self).wf() ==> (step matches AnimationStep::Show(i) ==> i < old(self).count
                && final(self).wf()),
    {
        let (c, s0) = (self.count as u64, self.speed as u64);
        assert(c * s0 <= 0xffff_ffffu64 * 0xffff_ffffu64) by (nonlinear_arith)
            requires
                c <= 0xffff_ffffu64,
                s0 <= 0xffff_ffffu64,
        ;
        let ghost was_wf = self.wf();
        self.frame = self.frame + 1;
        let total = self.count * self.speed;
        if self.frame == total {
            AnimationStep::Finished
        } else {
            proof {
                if was_wf {
                    let (f, s, c) = (self.frame as int, self.speed as int, self.count as int);
                    assert(f / s < c) by (nonlinear_arith)
                        requires
                            0 <= f < c * s,
                            s > 0,
                    ;
                }
            }
            AnimationStep::Show((self.frame / self.speed) as usize)
        }
    }
}

/// Law: an animation that runs as built can take its next step.
pub proof fn lemma_wf_can_step(a: Animation)
    requires
        a.wf(),
    ensures
        a.can_step(),
{
    let (f, s, c) = (a.frame as int, a.speed as int, a.count as int);
    if f + 1 != c * s {
        assert((f + 1) / s < c) by (nonlinear_arith)
            requires
                0 <= f + 1 < c * s,
                s > 0,
        ;
    }
}

/// Law: while an animation runs, the index of the sprite it shows never
/// decreases from one frame to a later one and stays below `count`, so each
/// shown sprite exists.
pub proof fn lemma_animation_schedule(a: Animation, n: int, m: int)
    requires
        a.wf(),
        a.frame < n <= m < a.length(),
    ensures
        n / (a.speed as int) <= m / (a.speed as int),
        m / (a.speed as int) < a.count,
{
    let (s, c) = (a.speed as int, a.count as int);
    assert(n / s <= m / s) by (nonlinear_arith)
        requires
            0 <= n <= m,
            s > 0,
    ;
    assert(m / s < c) by (nonlinear_arith)
        requires
            0 <= m < c * s,
            s > 0,
    ;
}

/// Advances an animation while the game is being played (see
/// [`Animation::advance`]); leaves it as it is otherwise (`None`).
pub fn effects(state: GameState, animation: &mut Animation) -> (step: Option<AnimationStep>)
    requires
        state == GameState::Playing ==> old(animation).can_step(),
    ensures
        state != GameState::Playing ==> step is None && *final(animation) == *old(animation),
        state == GameState::Playing ==> {
            &&& final(animation).frame == old(animation).frame + 1
            &&& final(animation).speed == old(animation).speed
            &&& final(animation).count == old(animation).count
            &&& final(animation).keys == old(animation).keys
            &&& step == Some(if final(animation).frame == old(animation).length() {
                AnimationStep::Finished
            } else {
                AnimationStep::Show((final(animation).frame / final(animation).speed) as usize)
            })
        },
        step matches Some(AnimationStep::Show(i)) ==> i < old(animation).keys.len(),
        old(animation).wf() ==> (step matches Some(AnimationStep::Show(i)) ==> i < old(animation).count
            && final(animation).wf()),
{
    match state {
        GameState::Playing => Some(animation.advance()),
        _ => None,
    }
}

/// The spark left where a bullet hits: three sprites of three frames each.
pub open spec fn is_spark(a: Animation) -> bool {
    &&& a.frame == 0
    &&& a.speed == 3
    &&& a.count == 3
    &&& a.keys.len() == 3
    &&& a.keys@[0]@ == "spark-a-0"@
    &&& a.keys@[1]@ == "spark-a-1"@
    &&& a.keys@[2]@ == "spark-a-2"@
}

/// A new spark animation.
pub fn spark_animation() -> (a: Animation)
    ensures
        is_spark(a),
        a.wf(),
{
    let mut keys: Vec<String> = Vec::new();
    keys.push("spark-a-0".to_owned());
    keys.push("spark-a-1".to_owned());
    keys.push("spark-a-2".to_owned());
    Animation { frame: 0, speed: 3, count: 3, keys }
}

/// What happens to a body that collided: while the game is being played, a
/// bullet with a physical body is removed and leaves a spark (returned);
/// anything else is left as it is (`None`).
pub fn collisions(state: GameState, is_bullet: bool, has_body: bool) -> (spark: Option<Animation>)
    ensures
        (spark is Some) == (state == GameState::Playing && is_bullet && has_body),
        spark matches Some(a) ==> is_spark(a) && a.wf(),
{
    match state {
        GameState::Playing => {
            if is_bullet && has_body {
                Some(spark_animation())
            } else {
                None
            }
        },
        _ => None,
    }
}

} // verus!
