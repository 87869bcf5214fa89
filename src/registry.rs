//! Dispatch of keyframe evaluation by runtime type token.
//!
//! Keyframe lists and destinations reach this module tagged with the token
//! of their value type. A registry maps each registered token to a
//! [`ReflectAnimatable`] entry, which checks the tags before it reads the
//! keyframes.

use std::collections::HashMap;
use vstd::prelude::*;
use vstd::std_specs::hash::group_hash_axioms;

use crate::interpolation::{
    interpolate_keyframes, span_of, AnimationEvaluationError, Interpolation, KeyframeSpan,
};
use crate::keyframes::{first_keyframe_covers, morph_first_keyframe, morph_spans, morph_spans_result};

verus! {

broadcast use group_hash_axioms;

/// A keyframe list tagged with the token of its value type.
pub struct ErasedKeyframes<T> {
    /// The token of the type of the values.
    pub value_type: u64,
    /// The keyframe values.
    pub values: Vec<T>,
}

/// The evaluation entry registered for one animatable type.
#[derive(Clone, Copy, Debug, PartialEq, Eq, Structural)]
pub struct ReflectAnimatable {
    /// The token of the type that this entry evaluates.
    pub value_type: u64,
}

impl ReflectAnimatable {
    /// The entry for the type with token `value_type`.
    pub fn from_type(value_type: u64) -> (r: Self)
        ensures
            r.value_type == value_type,
    {
        ReflectAnimatable { value_type }
    }

    /// The error of evaluating `keyframes` into a destination of type
    /// `dest_type`, before any keyframe is read: `MalformedKeyframes` if the
    /// keyframes are not of this entry's type, `PropertyNotPresent` if the
    /// destination is not.
    pub open spec fn type_error(&self, dest_type: u64, keyframes_type: u64) -> Option<
        AnimationEvaluationError,
    > {
        if keyframes_type != self.value_type {
            Some(AnimationEvaluationError::MalformedKeyframes)
        } else if dest_type != self.value_type {
            Some(AnimationEvaluationError::PropertyNotPresent)
        } else {
            None
        }
    }

    fn check_types(&self, dest_type: u64, keyframes_type: u64) -> (r: Result<
        (),
        AnimationEvaluationError,
    >)
        ensures
            r is Err <==> self.type_error(dest_type, keyframes_type) is Some,
            r is Err ==> r->Err_0 == self.type_error(dest_type, keyframes_type)->0,
    {
        if keyframes_type != self.value_type {
            Err(AnimationEvaluationError::MalformedKeyframes)
        } else if dest_type != self.value_type {
            Err(AnimationEvaluationError::PropertyNotPresent)
        } else {
            Ok(())
        }
    }

    /// The value that blending the first keyframe into a destination of type
    /// `dest_type` writes toward: the type error if there is one, else the
    /// first keyframe, or `KeyframeNotPresent` for an empty list.
    pub fn interpolate_first_keyframe<T: Copy>(
        &self,
        dest_type: u64,
        keyframes: &ErasedKeyframes<T>,
    ) -> (r: Result<T, AnimationEvaluationError>)
        ensures
            self.type_error(dest_type, keyframes.value_type) is Some ==> r == Err::<
                T,
                AnimationEvaluationError,
            >(self.type_error(dest_type, keyframes.value_type)->0),
            self.type_error(dest_type, keyframes.value_type) is None && keyframes.values@.len()
                == 0 ==> r == Err::<T, AnimationEvaluationError>(
                AnimationEvaluationError::KeyframeNotPresent,
            ),
            self.type_error(dest_type, keyframes.value_type) is None && keyframes.values@.len()
                > 0 ==> r == Ok::<T, AnimationEvaluationError>(keyframes.values@[0]),
    {
        if let Err(e) = self.check_types(dest_type, keyframes.value_type) {
            return Err(e);
        }
        if keyframes.values.len() == 0 {
            Err(AnimationEvaluationError::KeyframeNotPresent)
        } else {
            Ok(keyframes.values[0])
        }
    }

    /// The span that interpolating the segment from `step_start` into a
    /// destination of type `dest_type` reads: the type error if there is one,
    /// else the span that `interpolation` reads from the keyframes.
    pub fn interpolate_keyframes<T: Copy>(
        &self,
        dest_type: u64,
        keyframes: &ErasedKeyframes<T>,
        interpolation: Interpolation,
        step_start: usize,
    ) -> (r: Result<KeyframeSpan<T>, AnimationEvaluationError>)
        ensures
            self.type_error(dest_type, keyframes.value_type) is Some ==> r == Err::<
                KeyframeSpan<T>,
                AnimationEvaluationError,
            >(self.type_error(dest_type, keyframes.value_type)->0),
            self.type_error(dest_type, keyframes.value_type) is None ==> r == span_of(
                &keyframes.values,
                interpolation,
                step_start as int,
            ),
    {
        if let Err(e) = self.check_types(dest_type, keyframes.value_type) {
            return Err(e);
        }
        interpolate_keyframes(&keyframes.values, interpolation, step_start)
    }
}

/// The evaluation entry of morph weights. Their keyframes are one flat list
/// of weights, keyframe by keyframe, with one weight for each morph target
/// of the destination.
#[derive(Clone, Copy, Debug, PartialEq, Eq, Structural)]
pub struct MorphWeightsReflectAnimatable {
    /// The token of the morph weights component.
    pub weights_type: u64,
    /// The token of the type of a single weight.
    pub keyframe_type: u64,
}

impl MorphWeightsReflectAnimatable {
    /// The error of evaluating keyframes of type `keyframes_type` into a
    /// destination of type `dest_type`, before any keyframe is read.
    pub open spec fn type_error(&self, dest_type: u64, keyframes_type: u64) -> Option<
        AnimationEvaluationError,
    > {
        if keyframes_type != self.keyframe_type {
            Some(AnimationEvaluationError::MalformedKeyframes)
        } else if dest_type != self.weights_type {
            Some(AnimationEvaluationError::PropertyNotPresent)
        } else {
            None
        }
    }

    fn check_types(&self, dest_type: u64, keyframes_type: u64) -> (r: Result<
        (),
        AnimationEvaluationError,
    >)
        ensures
            r is Err <==> self.type_error(dest_type, keyframes_type) is Some,
            r is Err ==> r->Err_0 == self.type_error(dest_type, keyframes_type)->0,
    {
        if keyframes_type != self.keyframe_type {
            Err(AnimationEvaluationError::MalformedKeyframes)
        } else if dest_type != self.weights_type {
            Err(AnimationEvaluationError::PropertyNotPresent)
        } else {
            Ok(())
        }
    }

    /// The weights that blending the first keyframe into a destination with
    /// `dest_target_count` morph targets writes toward, in target order: the
    /// type error if there is one, else the first `dest_target_count`
    /// weights, or `KeyframeNotPresent` for an empty list or one with fewer.
    pub fn interpolate_first_keyframe<W: Copy>(
        &self,
        dest_type: u64,
        dest_target_count: usize,
        keyframes: &ErasedKeyframes<W>,
    ) -> (r: Result<Vec<W>, AnimationEvaluationError>)
        ensures
            self.type_error(dest_type, keyframes.value_type) is Some ==> r is Err && r->Err_0
                == self.type_error(dest_type, keyframes.value_type)->0,
            self.type_error(dest_type, keyframes.value_type) is None && first_keyframe_covers(
                keyframes.values@,
                dest_target_count as int,
            ) ==> r is Ok && r->Ok_0@ == keyframes.values@.subrange(0, dest_target_count as int),
            self.type_error(dest_type, keyframes.value_type) is None && !first_keyframe_covers(
                keyframes.values@,
                dest_target_count as int,
            ) ==> r is Err && r->Err_0
                == AnimationEvaluationError::KeyframeNotPresent,
    {
        if let Err(e) = self.check_types(dest_type, keyframes.value_type) {
            return Err(e);
        }
        morph_first_keyframe(&keyframes.values, dest_target_count)
    }

    /// The spans that interpolating the segment from `step_start` into a
    /// destination with `dest_target_count` morph targets reads, in target
    /// order: the type error if there is one, else the span of each target,
    /// with `dest_target_count` weights per keyframe, or `KeyframeNotPresent`
    /// where one of them is missing.
    pub fn interpolate_keyframes<W: Copy>(
        &self,
        dest_type: u64,
        dest_target_count: usize,
        keyframes: &ErasedKeyframes<W>,
        interpolation: Interpolation,
        step_start: usize,
    ) -> (r: Result<Vec<KeyframeSpan<W>>, AnimationEvaluationError>)
        ensures
            self.type_error(dest_type, keyframes.value_type) is Some ==> r is Err && r->Err_0
                == self.type_error(dest_type, keyframes.value_type)->0,
            self.type_error(dest_type, keyframes.value_type) is None ==> morph_spans_result(
                &keyframes.values,
                dest_target_count,
                dest_target_count,
                interpolation,
                step_start,
                r,
            ),
    {
        if let Err(e) = self.check_types(dest_type, keyframes.value_type) {
            return Err(e);
        }
        morph_spans(
            &keyframes.values,
            dest_target_count,
            dest_target_count,
            interpolation,
            step_start,
        )
    }
}

/// The entries of all registered animatable types, by type token. Entries
/// are only ever added.
pub struct AnimatableRegistry {
    entries: HashMap<u64, ReflectAnimatable>,
}

impl AnimatableRegistry {
    /// The registered entries by token.
    pub closed spec fn view(&self) -> Map<u64, ReflectAnimatable> {
        self.entries@
    }

    /// Each entry is registered under its own type's token.
    pub closed spec fn well_formed(&self) -> bool {
        forall|t: u64| #[trigger] self.entries@.contains_key(t) ==> self.entries@[t].value_type == t
    }

    /// An empty registry.
    pub fn new() -> (r: Self)
        ensures
            r@ == Map::<u64, ReflectAnimatable>::empty(),
            r.well_formed(),
    {
        AnimatableRegistry { entries: HashMap::new() }
    }

    /// Registers the type with token `value_type`; an entry already there is
    /// kept.
    pub fn register(&mut self, value_type: u64)
        requires
            old(self).well_formed(),
        ensures
            final(self).well_formed(),
            old(self)@.contains_key(value_type) ==> final(self)@ == old(self)@,
            !old(self)@.contains_key(value_type) ==> final(self)@ == old(self)@.insert(
                value_type,
                ReflectAnimatable { value_type },
            ),
    {
        if !self.entries.contains_key(&value_type) {
            self.entries.insert(value_type, ReflectAnimatable::from_type(value_type));
        }
    }

    /// The entry registered for `value_type`, if any.
    pub fn get(&self, value_type: u64) -> (r: Option<ReflectAnimatable>)
        requires
            self.well_formed(),
        ensures
            self@.contains_key(value_type) ==> r == Some(self@[value_type]),
            !self@.contains_key(value_type) ==> r is None,
            r is Some ==> r->0.value_type == value_type,
    {
        match self.entries.get(&value_type) {
            Some(entry) => Some(*entry),
            None => None,
        }
    }
}

} // verus!
