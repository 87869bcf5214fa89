//! Selecting the keyframes that an interpolation mode combines.

use vstd::prelude::*;

verus! {

/// How the values between two keyframes are computed.
#[derive(Clone, Copy, Debug, PartialEq, Eq, Structural)]
pub enum Interpolation {
    /// Straight-line interpolation between the two neighbouring keyframes.
    Linear,
    /// The value of the earlier keyframe, held until the next one.
    Step,
    /// A cubic curve through the two keyframe values, shaped by their
    /// tangents; keyframes are stored as (in-tangent, value, out-tangent)
    /// triplets.
    CubicSpline,
}

/// Why a track could not be applied to an object.
#[derive(Clone, Copy, Debug, PartialEq, Eq, Structural)]
pub enum AnimationEvaluationError {
    /// The object lacks the component that the track targets.
    ComponentNotPresent,
    /// The component exists, but the property inside it could not be found.
    PropertyNotPresent,
    /// The keyframe list is too short for the requested step.
    KeyframeNotPresent,
    /// The keyframe data does not have the type that was registered.
    MalformedKeyframes,
}

/// The keyframe values that one evaluation combines, by interpolation mode.
#[derive(Debug, PartialEq)]
pub enum KeyframeSpan<T> {
    /// The value held by a step.
    Step(T),
    /// The two endpoints of a straight-line interpolation.
    Linear { start: T, end: T },
    /// The endpoints of a cubic segment and the derivatives at them.
    Cubic { start: T, start_tangent: T, end_tangent: T, end: T },
}

/// A list of keyframe values that can be looked up by index.
pub trait GetKeyframe<T> {
    /// The value at `index`, if there is one.
    spec fn keyframe(&self, index: usize) -> Option<T>;

    /// Looks up the value at `index`.
    fn get_keyframe(&self, index: usize) -> (r: Option<T>)
        ensures
            r == self.keyframe(index),
    ;
}

/// The value at `index` of `keyframes`; an index that no `usize` can hold
/// addresses nothing.
pub open spec fn keyframe_at<T, K: GetKeyframe<T>>(keyframes: &K, index: int) -> Option<T> {
    if 0 <= index <= usize::MAX {
        keyframes.keyframe(index as usize)
    } else {
        None
    }
}

impl<T: Copy> GetKeyframe<T> for Vec<T> {
    open spec fn keyframe(&self, index: usize) -> Option<T> {
        if index < self@.len() {
            Some(self@[index as int])
        } else {
            None
        }
    }

    fn get_keyframe(&self, index: usize) -> (r: Option<T>) {
        if index < self.len() {
            Some(self[index])
        } else {
            None
        }
    }
}

/// The span that `interpolation` evaluates when it starts at keyframe
/// `step_start`, or `KeyframeNotPresent` where a keyframe it needs is missing.
///
/// Step reads keyframe `step_start`; Linear reads `step_start` and
/// `step_start + 1`; CubicSpline reads the value and out-tangent of logical
/// keyframe `step_start` and the in-tangent and value of the next one, at flat
/// indices `3 * step_start + 1` to `3 * step_start + 4`.
pub open spec fn span_of<T, K: GetKeyframe<T>>(
    keyframes: &K,
    interpolation: Interpolation,
    step_start: int,
) -> Result<KeyframeSpan<T>, AnimationEvaluationError> {
    match interpolation {
        Interpolation::Step => match keyframe_at(keyframes, step_start) {
            Some(v) => Ok(KeyframeSpan::Step(v)),
            None => Err(AnimationEvaluationError::KeyframeNotPresent),
        },
        Interpolation::Linear => match (
            keyframe_at(keyframes, step_start),
            keyframe_at(keyframes, step_start + 1),
        ) {
            (Some(a), Some(b)) => Ok(KeyframeSpan::Linear { start: a, end: b }),
            _ => Err(AnimationEvaluationError::KeyframeNotPresent),
        },
        Interpolation::CubicSpline => match (
            keyframe_at(keyframes, 3 * step_start + 1),
            keyframe_at(keyframes, 3 * step_start + 2),
            keyframe_at(keyframes, 3 * step_start + 3),
            keyframe_at(keyframes, 3 * step_start + 4),
        ) {
            (Some(p0), Some(d0), Some(d3), Some(p3)) => Ok(
                KeyframeSpan::Cubic { start: p0, start_tangent: d0, end_tangent: d3, end: p3 },
            ),
            _ => Err(AnimationEvaluationError::KeyframeNotPresent),
        },
    }
}

/// Reads the keyframes that `interpolation` combines for the segment that
/// starts at `step_start`.
pub fn interpolate_keyframes<T, K: GetKeyframe<T>>(
    keyframes: &K,
    interpolation: Interpolation,
    step_start: usize,
) -> (r: Result<KeyframeSpan<T>, AnimationEvaluationError>)
    ensures
        r == span_of(keyframes, interpolation, step_start as int),
{
    match interpolation {
        Interpolation::Step => match keyframes.get_keyframe(step_start) {
            Some(v) => Ok(KeyframeSpan::Step(v)),
            None => Err(AnimationEvaluationError::KeyframeNotPresent),
        },
        Interpolation::Linear => {
            if step_start == usize::MAX {
                return Err(AnimationEvaluationError::KeyframeNotPresent);
            }
            match (keyframes.get_keyframe(step_start), keyframes.get_keyframe(step_start + 1)) {
                (Some(a), Some(b)) => Ok(KeyframeSpan::Linear { start: a, end: b }),
                _ => Err(AnimationEvaluationError::KeyframeNotPresent),
            }
        },
        Interpolation::CubicSpline => {
            if step_start > (usize::MAX - 4) / 3 {
                return Err(AnimationEvaluationError::KeyframeNotPresent);
            }
            let base: usize = step_start * 3;
            match (
                keyframes.get_keyframe(base + 1),
                keyframes.get_keyframe(base + 2),
                keyframes.get_keyframe(base + 3),
                keyframes.get_keyframe(base + 4),
            ) {
                (Some(p0), Some(d0), Some(d3), Some(p3)) => Ok(
                    KeyframeSpan::Cubic { start: p0, start_tangent: d0, end_tangent: d3, end: p3 },
                ),
                _ => Err(AnimationEvaluationError::KeyframeNotPresent),
            }
        },
    }
}

} // verus!
