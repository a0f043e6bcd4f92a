use vstd::prelude::*;

verus! {

/// Deepest bounce at which a scattered ray is still followed.
pub const MAX_DEPTH: u32 = 50;

/// What the scene and the material at the hit point did with one ray.
#[derive(PartialEq, Eq, Structural, Clone, Copy, Debug)]
pub enum Interaction {
    /// The ray left the scene without hitting anything.
    Miss,
    /// The ray hit a surface whose material absorbed it.
    Absorbed,
    /// The ray hit a surface and the material sent a new ray on.
    Scattered,
}

/// What the radiance estimate does next with the current ray.
#[derive(PartialEq, Eq, Structural, Clone, Copy, Debug)]
pub enum Step {
    /// The path ends in the sky gradient, seen along the current ray.
    Sky,
    /// The path ends in black.
    Black,
    /// The path continues with the scattered ray, at the given depth.
    Bounce { depth: u32 },
}

/// The step taken at `depth` after `interaction`.
pub open spec fn step_of(depth: u32, interaction: Interaction) -> Step {
    if depth > MAX_DEPTH {
        Step::Black
    } else {
        match interaction {
            Interaction::Miss => Step::Sky,
            Interaction::Absorbed => Step::Black,
            Interaction::Scattered => if depth < MAX_DEPTH {
                Step::Bounce { depth: (depth + 1) as u32 }
            } else {
                Step::Black
            },
        }
    }
}

/// The step that ends a path started at `depth` whose successive interactions are
/// `events`, or `None` when the events run out while the path still bounces.
pub open spec fn path_end(depth: u32, events: Seq<Interaction>) -> Option<Step>
    decreases events.len(),
{
    if events.len() == 0 {
        None
    } else {
        match step_of(depth, events[0]) {
            Step::Bounce { depth: next } => path_end(next, events.drop_first()),
            s => Some(s),
        }
    }
}

/// Decides how the radiance estimate goes on at `depth` after `interaction`:
/// past the depth limit, or on absorption, the path is black; a miss shows the
/// sky; a scattered ray is followed one level deeper while the limit allows.
pub fn next_step(depth: u32, interaction: Interaction) -> (s: Step)
    ensures
        s == step_of(depth, interaction),
{
    if depth > MAX_DEPTH {
        return Step::Black;
    }
    match interaction {
        Interaction::Miss => Step::Sky,
        Interaction::Absorbed => Step::Black,
        Interaction::Scattered => if depth < MAX_DEPTH {
            Step::Bounce { depth: depth + 1 }
        } else {
            Step::Black
        },
    }
}

/// The index, counted from the bottom, of pixel row `j` in an image `height` rows
/// high: pixel rows are numbered downwards, the camera's vertical span upwards.
pub fn row_from_bottom(j: u32, height: u32) -> (r: u32)
    requires
        j < height,
    ensures
        r == height - 1 - j,
{
    height - 1 - j
}

/// A bounce goes exactly one level deeper and never past the depth limit.
pub proof fn lemma_bounce_within_limit(depth: u32, interaction: Interaction)
    ensures
        step_of(depth, interaction) matches Step::Bounce { depth: next } ==> next == depth + 1
            && next <= MAX_DEPTH,
{
}

/// With nothing in the scene every ray misses, so every path that has not run past
/// the depth limit ends in the sky.
pub proof fn lemma_empty_scene_shows_sky(depth: u32, events: Seq<Interaction>)
    requires
        depth <= MAX_DEPTH,
        events.len() > 0,
        forall|k: int| 0 <= k < events.len() ==> events[k] == Interaction::Miss,
    ensures
        path_end(depth, events) == Some(Step::Sky),
{
    assert(events[0] == Interaction::Miss);
}

/// Every path started within the depth limit ends, whatever the scene and the
/// materials do, after at most `MAX_DEPTH + 1 - depth` interactions.
pub proof fn lemma_path_ends(depth: u32, events: Seq<Interaction>)
    requires
        depth <= MAX_DEPTH,
        events.len() >= MAX_DEPTH + 1 - depth,
    ensures
        path_end(depth, events) == Some(Step::Sky) || path_end(depth, events) == Some(
            Step::Black,
        ),
    decreases MAX_DEPTH - depth,
{
    match step_of(depth, events[0]) {
        Step::Bounce { depth: next } => {
            lemma_path_ends(next, events.drop_first());
        },
        _ => {},
    }
}

} // verus!
