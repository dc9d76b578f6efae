use vstd::prelude::*;
use crate::animation::{
    AnimationType, NUM_ANIMATIONS, animation_at, animation_frame, continues_while, frame_count,
    spec_animation_at, spec_continues_while, spec_frame, spec_frame_count,
};
use crate::led::{Deployment, RgbState};

verus! {

/// The RGB loop's position in an animation: which animation it plays and
/// which of its frames is up.
#[derive(Clone, Copy, Debug, PartialEq, Eq, Structural)]
pub struct AnimationRun {
    pub kind: AnimationType,
    pub frame: usize,
}

impl AnimationRun {
    /// The frame is one the animation has.
    pub open spec fn valid(self, deployment: Deployment) -> bool {
        self.frame < spec_frame_count(deployment, self.kind)
    }

    /// The run after one more frame, when the animation goes on.
    pub open spec fn spec_after_frame(self, deployment: Deployment, current: AnimationType) -> Option<
        AnimationRun,
    > {
        if current == spec_continues_while(deployment, self.kind) && self.frame + 1
            < spec_frame_count(deployment, self.kind) {
            Some(AnimationRun { kind: self.kind, frame: (self.frame + 1) as usize })
        } else {
            None
        }
    }
}

/// The run the RGB loop starts when it finds animation `animation_idx`
/// selected: that animation, from its first frame.
pub fn begin_animation(animation_idx: usize) -> (run: AnimationRun)
    requires
        animation_idx < NUM_ANIMATIONS,
    ensures
        run == (AnimationRun { kind: spec_animation_at(animation_idx as int), frame: 0 }),
{
    AnimationRun { kind: animation_at(animation_idx).animation_type, frame: 0 }
}

/// The frame the RGB loop shows for a run.
pub fn run_frame(deployment: Deployment, run: AnimationRun) -> (frame: [RgbState; 6])
    requires
        run.valid(deployment),
    ensures
        frame@ == spec_frame(deployment, run.kind, run.frame as int),
{
    animation_frame(deployment, run.kind, run.frame)
}

/// What the RGB loop does once a frame has stayed up and it has looked up
/// the animation now selected (`current`): it goes on to the next frame
/// while the animation that keeps the run going is still selected and
/// frames are left; otherwise the run ends (`None`) and the loop starts
/// whatever animation is selected then.
pub fn after_frame(deployment: Deployment, run: AnimationRun, current: AnimationType) -> (next:
    Option<AnimationRun>)
    requires
        run.valid(deployment),
    ensures
        next == run.spec_after_frame(deployment, current),
        next matches Some(r) ==> r.valid(deployment) && r.kind == run.kind && r.frame == run.frame
            + 1,
{
    if current != continues_while(deployment, run.kind) {
        return None;
    }
    let n = frame_count(deployment, run.kind);
    if run.frame + 1 < n {
        Some(AnimationRun { kind: run.kind, frame: run.frame + 1 })
    } else {
        None
    }
}

/// The run after `steps` frames during which the animation that keeps it
/// going stayed selected.
pub open spec fn spec_undisturbed(deployment: Deployment, run: AnimationRun, steps: nat) -> Option<
    AnimationRun,
>
    decreases steps,
{
    if steps == 0 {
        Some(run)
    } else {
        match spec_undisturbed(deployment, run, (steps - 1) as nat) {
            Some(r) => r.spec_after_frame(deployment, spec_continues_while(deployment, run.kind)),
            None => None,
        }
    }
}

/// Left undisturbed, an animation started by the RGB loop shows its frames
/// in order, one per step, and ends after its last frame.
pub proof fn lemma_undisturbed_run_plays_every_frame(
    deployment: Deployment,
    animation_idx: int,
    steps: nat,
)
    requires
        0 <= animation_idx < NUM_ANIMATIONS,
    ensures
        ({
            let kind = spec_animation_at(animation_idx);
            let start = AnimationRun { kind, frame: 0 };
            &&& steps < spec_frame_count(deployment, kind) ==> spec_undisturbed(
                deployment,
                start,
                steps,
            ) == Some(AnimationRun { kind, frame: steps as usize })
            &&& steps == spec_frame_count(deployment, kind) ==> spec_undisturbed(
                deployment,
                start,
                steps,
            ) is None
        }),
    decreases steps,
{
    let kind = spec_animation_at(animation_idx);
    let start = AnimationRun { kind, frame: 0 };
    if steps > 0 {
        lemma_undisturbed_run_plays_every_frame(deployment, animation_idx, (steps - 1) as nat);
    }
}

/// On the Pi, choosing another animation ends the running one as soon as
/// the frame that is up has had its time; the loop then starts the new
/// choice from its first frame.
pub proof fn lemma_new_choice_takes_over_after_one_frame(
    run: AnimationRun,
    current: AnimationType,
)
    requires
        current != run.kind,
    ensures
        run.spec_after_frame(Deployment::RaspberryPi, current) is None,
{
}

/// After each frame the run goes on to its next frame exactly when the
/// selection that keeps it going is in place and frames are left: on both
/// deployments any other selection ends the run. That selection is the
/// running animation itself, except on the local build, where the wave and
/// the snow go on while the blink is selected.
pub proof fn lemma_after_frame_follows_the_selection(
    deployment: Deployment,
    run: AnimationRun,
    current: AnimationType,
)
    requires
        run.valid(deployment),
    ensures
        ({
            let keeps_going = if deployment == Deployment::LocalDev && (run.kind == AnimationType::Wave
                || run.kind == AnimationType::Snow) {
                current == AnimationType::Blink
            } else {
                current == run.kind
            };
            &&& !keeps_going ==> run.spec_after_frame(deployment, current) is None
            &&& keeps_going && run.frame + 1 < spec_frame_count(deployment, run.kind)
                ==> run.spec_after_frame(deployment, current) == Some(
                AnimationRun { kind: run.kind, frame: (run.frame + 1) as usize },
            )
            &&& run.frame + 1 == spec_frame_count(deployment, run.kind) ==> run.spec_after_frame(
                deployment,
                current,
            ) is None
        }),
{
}

} // verus!
