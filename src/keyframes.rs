//! Keyframe tracks: what each kind of track reads when it is applied to an
//! object.

use vstd::prelude::*;

use crate::interpolation::{
    interpolate_keyframes, keyframe_at, span_of, AnimationEvaluationError, GetKeyframe,
    Interpolation, KeyframeSpan,
};

verus! {

/// What looking up a track's destination on an object found.
#[derive(Clone, Copy, Debug, PartialEq, Eq, Structural)]
pub enum Destination {
    /// The object has no component of the type the track targets.
    ComponentMissing,
    /// The component is there, but the property inside it is not.
    PropertyMissing,
    /// The property was found.
    Found,
}

/// The error that a destination lookup reports, if any.
pub open spec fn destination_error(dest: Destination) -> Option<AnimationEvaluationError> {
    match dest {
        Destination::ComponentMissing => Some(AnimationEvaluationError::ComponentNotPresent),
        Destination::PropertyMissing => Some(AnimationEvaluationError::PropertyNotPresent),
        Destination::Found => None,
    }
}

fn check_destination(dest: Destination) -> (r: Result<(), AnimationEvaluationError>)
    ensures
        r is Err <==> destination_error(dest) is Some,
        r is Err ==> r->Err_0 == destination_error(dest)->0,
{
    match dest {
        Destination::ComponentMissing => Err(AnimationEvaluationError::ComponentNotPresent),
        Destination::PropertyMissing => Err(AnimationEvaluationError::PropertyNotPresent),
        Destination::Found => Ok(()),
    }
}

/// The keyframes of one animatable property: one value per keyframe for
/// step and linear interpolation, three per keyframe for cubic splines.
pub struct AnimatablePropertyKeyframes<T> {
    /// The token of the component type that holds the property.
    pub component_type: u64,
    /// The keyframe values.
    pub keyframes: Vec<T>,
}

/// Keyframes of the translation of a transform.
pub type TranslationKeyframes<V> = AnimatablePropertyKeyframes<V>;

/// Keyframes of the scale of a transform.
pub type ScaleKeyframes<V> = AnimatablePropertyKeyframes<V>;

/// Keyframes of the rotation of a transform.
pub type RotationKeyframes<Q> = AnimatablePropertyKeyframes<Q>;

/// The number of keyframes that `len` stored values make under
/// `interpolation`: a cubic spline stores three values per keyframe.
pub open spec fn authored_keyframes(len: int, interpolation: Interpolation) -> int {
    match interpolation {
        Interpolation::CubicSpline => len / 3,
        _ => len,
    }
}

impl<T: Copy> AnimatablePropertyKeyframes<T> {
    /// The keyframe values.
    pub open spec fn view(&self) -> Seq<T> {
        self.keyframes@
    }

    /// A track of `keyframes` for a property of components of type
    /// `component_type`.
    pub fn new(component_type: u64, keyframes: Vec<T>) -> (r: Self)
        ensures
            r.component_type == component_type,
            r@ == keyframes@,
    {
        AnimatablePropertyKeyframes { component_type, keyframes }
    }

    /// The token of the component type that the track animates; an object
    /// without such a component cannot take the track.
    pub fn get_component_type_id(&self) -> (r: u64)
        ensures
            r == self.component_type,
    {
        self.component_type
    }

    /// The number of values stored in the track, which is the number of
    /// keyframes for step and linear interpolation. See
    /// [`Self::authored_keyframe_count`] for cubic splines.
    pub fn keyframe_count(&self) -> (r: usize)
        ensures
            r == self@.len(),
    {
        self.keyframes.len()
    }

    /// The number of keyframes that the track holds when it is read with
    /// `interpolation`: a third of the stored values for a cubic spline, all
    /// of them otherwise.
    pub fn authored_keyframe_count(&self, interpolation: Interpolation) -> (r: usize)
        ensures
            r == authored_keyframes(self@.len() as int, interpolation),
    {
        match interpolation {
            Interpolation::CubicSpline => self.keyframes.len() / 3,
            _ => self.keyframes.len(),
        }
    }

    /// Looks up keyframe `index`.
    pub fn get_keyframe(&self, index: usize) -> (r: Option<T>)
        ensures
            r == self.keyframes.keyframe(index),
    {
        self.keyframes.get_keyframe(index)
    }

    /// The value that applying the first keyframe blends into the
    /// destination: the destination's error if it was not found, else the
    /// first keyframe, or `KeyframeNotPresent` for an empty track.
    pub fn apply_single_keyframe(&self, dest: Destination) -> (r: Result<
        T,
        AnimationEvaluationError,
    >)
        ensures
            destination_error(dest) is Some ==> r == Err::<T, AnimationEvaluationError>(
                destination_error(dest)->0,
            ),
            destination_error(dest) is None && self@.len() == 0 ==> r == Err::<
                T,
                AnimationEvaluationError,
            >(AnimationEvaluationError::KeyframeNotPresent),
            destination_error(dest) is None && self@.len() > 0 ==> r == Ok::<
                T,
                AnimationEvaluationError,
            >(self@[0]),
    {
        if let Err(e) = check_destination(dest) {
            return Err(e);
        }
        if self.keyframes.len() == 0 {
            Err(AnimationEvaluationError::KeyframeNotPresent)
        } else {
            Ok(self.keyframes[0])
        }
    }

    /// The span that applying the segment starting at `step_start` blends
    /// into the destination: the destination's error if it was not found,
    /// else the span that `interpolation` reads.
    pub fn apply_tweened_keyframes(
        &self,
        dest: Destination,
        interpolation: Interpolation,
        step_start: usize,
    ) -> (r: Result<KeyframeSpan<T>, AnimationEvaluationError>)
        ensures
            destination_error(dest) is Some ==> r == Err::<
                KeyframeSpan<T>,
                AnimationEvaluationError,
            >(destination_error(dest)->0),
            destination_error(dest) is None ==> r == span_of(
                &self.keyframes,
                interpolation,
                step_start as int,
            ),
    {
        if let Err(e) = check_destination(dest) {
            return Err(e);
        }
        interpolate_keyframes(&self.keyframes, interpolation, step_start)
    }
}

/// Step interpolation holds the keyframe at `step_start`: the span it reads
/// is that keyframe alone, and no time enters into it.
pub proof fn lemma_step_holds_start_keyframe<T: Copy>(
    track: &AnimatablePropertyKeyframes<T>,
    step_start: usize,
)
    requires
        step_start < track@.len(),
    ensures
        span_of(&track.keyframes, Interpolation::Step, step_start as int) == Ok::<
            KeyframeSpan<T>,
            AnimationEvaluationError,
        >(KeyframeSpan::Step(track@[step_start as int])),
{
}

/// The flat index of morph target `target_index` at keyframe
/// `keyframe_index`, where each keyframe holds `target_count` weights.
pub open spec fn morph_weight_index(keyframe_index: int, target_count: int, target_index: int) -> int {
    keyframe_index * target_count + target_index
}

/// The weights of every morph target at every keyframe, flattened keyframe
/// by keyframe: `[target 0 at keyframe 0, target 1 at keyframe 0, ...,
/// target 0 at keyframe 1, ...]`.
pub struct MorphWeightsKeyframes<W> {
    /// The token of the morph weights component type.
    pub component_type: u64,
    /// The number of morph targets, that is of weights per keyframe.
    pub morph_target_count: usize,
    /// The flattened weights.
    pub weights: Vec<W>,
}

impl<W: Copy> MorphWeightsKeyframes<W> {
    /// Every keyframe holds one weight per morph target.
    pub open spec fn well_formed(&self) -> bool {
        self.morph_target_count > 0 && self.weights@.len() % (self.morph_target_count as nat) == 0
    }

    /// The token of the morph weights component type.
    pub fn get_component_type_id(&self) -> (r: u64)
        ensures
            r == self.component_type,
    {
        self.component_type
    }

    /// The number of keyframes.
    pub fn keyframe_count(&self) -> (r: usize)
        requires
            self.well_formed(),
        ensures
            r == self.weights@.len() / (self.morph_target_count as nat),
    {
        self.weights.len() / self.morph_target_count
    }

    /// The keyframe list of one morph target.
    pub fn target(&self, morph_target_index: usize) -> (r: GetMorphWeightKeyframe<'_, W>)
        ensures
            r == morph_target(&self.weights, self.morph_target_count, morph_target_index),
    {
        GetMorphWeightKeyframe {
            weights: &self.weights,
            morph_target_count: self.morph_target_count,
            morph_target_index,
        }
    }

    /// The weights that applying the first keyframe blends into the first
    /// `target_count` morph targets of the destination, in target order.
    ///
    /// Fails with the destination's error if it was not found, and with
    /// `KeyframeNotPresent` where the track is empty or its first keyframe
    /// lacks a weight for one of those targets.
    pub fn apply_single_keyframe(&self, dest: Destination, target_count: usize) -> (r: Result<
        Vec<W>,
        AnimationEvaluationError,
    >)
        ensures
            destination_error(dest) is Some ==> r is Err && r->Err_0 == destination_error(
                dest,
            )->0,
            destination_error(dest) is None && first_keyframe_covers(
                self.weights@,
                target_count as int,
            ) ==> r is Ok && r->Ok_0@ == self.weights@.subrange(0, target_count as int),
            destination_error(dest) is None && !first_keyframe_covers(
                self.weights@,
                target_count as int,
            ) ==> r is Err && r->Err_0 == AnimationEvaluationError::KeyframeNotPresent,
    {
        if let Err(e) = check_destination(dest) {
            return Err(e);
        }
        morph_first_keyframe(&self.weights, target_count)
    }

    /// The spans that applying the segment starting at `step_start` blends
    /// into the first `target_count` morph targets of the destination, in
    /// target order.
    ///
    /// Fails with the destination's error if it was not found, and with
    /// `KeyframeNotPresent` where the span of one of those targets is
    /// missing.
    pub fn apply_tweened_keyframes(
        &self,
        dest: Destination,
        target_count: usize,
        interpolation: Interpolation,
        step_start: usize,
    ) -> (r: Result<Vec<KeyframeSpan<W>>, AnimationEvaluationError>)
        ensures
            destination_error(dest) is Some ==> r is Err && r->Err_0 == destination_error(
                dest,
            )->0,
            destination_error(dest) is None ==> morph_spans_result(
                &self.weights,
                self.morph_target_count,
                target_count,
                interpolation,
                step_start,
                r,
            ),
    {
        if let Err(e) = check_destination(dest) {
            return Err(e);
        }
        morph_spans(&self.weights, self.morph_target_count, target_count, interpolation, step_start)
    }
}

/// The keyframe list of morph target `morph_target_index` in `weights`,
/// which holds `morph_target_count` weights per keyframe.
pub open spec fn morph_target<'k, W>(
    weights: &'k Vec<W>,
    morph_target_count: usize,
    morph_target_index: usize,
) -> GetMorphWeightKeyframe<'k, W> {
    GetMorphWeightKeyframe { weights, morph_target_count, morph_target_index }
}

/// The span that `interpolation` reads for morph target `target` from
/// `step_start` on.
pub open spec fn morph_span<W: Copy>(
    weights: &Vec<W>,
    morph_target_count: usize,
    target: int,
    interpolation: Interpolation,
    step_start: int,
) -> Result<KeyframeSpan<W>, AnimationEvaluationError> {
    span_of(&morph_target(weights, morph_target_count, target as usize), interpolation, step_start)
}

/// `r` is what reading the spans of the first `target_count` morph targets
/// gives: every target's span, in target order, where all of them are
/// there, and `KeyframeNotPresent` otherwise.
pub open spec fn morph_spans_result<W: Copy>(
    weights: &Vec<W>,
    morph_target_count: usize,
    target_count: usize,
    interpolation: Interpolation,
    step_start: usize,
    r: Result<Vec<KeyframeSpan<W>>, AnimationEvaluationError>,
) -> bool {
    &&& r is Ok <==> forall|i: int|
        0 <= i < target_count ==> #[trigger] morph_span(
            weights,
            morph_target_count,
            i,
            interpolation,
            step_start as int,
        ) is Ok
    &&& r is Ok ==> r->Ok_0@.len() == target_count && forall|i: int|
        0 <= i < target_count ==> #[trigger] morph_span(
            weights,
            morph_target_count,
            i,
            interpolation,
            step_start as int,
        ) == Ok::<KeyframeSpan<W>, AnimationEvaluationError>(r->Ok_0@[i])
    &&& r is Err ==> r->Err_0 == AnimationEvaluationError::KeyframeNotPresent
}

/// The track has a first keyframe, and it holds a weight for each of the
/// first `target_count` morph targets.
pub open spec fn first_keyframe_covers<W>(weights: Seq<W>, target_count: int) -> bool {
    0 < weights.len() && target_count <= weights.len()
}

/// Reads the weights of the first `target_count` morph targets at the first
/// keyframe; an empty track has no first keyframe.
pub fn morph_first_keyframe<W: Copy>(weights: &Vec<W>, target_count: usize) -> (r: Result<
    Vec<W>,
    AnimationEvaluationError,
>)
    ensures
        first_keyframe_covers(weights@, target_count as int) ==> r is Ok && r->Ok_0@
            == weights@.subrange(0, target_count as int),
        !first_keyframe_covers(weights@, target_count as int) ==> r == Err::<
            Vec<W>,
            AnimationEvaluationError,
        >(
            AnimationEvaluationError::KeyframeNotPresent,
        ),
{
    if weights.len() == 0 || target_count > weights.len() {
        return Err(AnimationEvaluationError::KeyframeNotPresent);
    }
    let mut out: Vec<W> = Vec::new();
    let mut i: usize = 0;
    while i < target_count
        invariant
            i <= target_count <= weights@.len(),
            out@ == weights@.subrange(0, i as int),
        decreases target_count - i,
    {
        out.push(weights[i]);
        i += 1;
    }
    Ok(out)
}

/// Reads the spans of the first `target_count` morph targets from
/// `step_start` on, in target order, out of `weights`, which holds
/// `morph_target_count` weights per keyframe.
pub fn morph_spans<W: Copy>(
    weights: &Vec<W>,
    morph_target_count: usize,
    target_count: usize,
    interpolation: Interpolation,
    step_start: usize,
) -> (r: Result<Vec<KeyframeSpan<W>>, AnimationEvaluationError>)
    ensures
        morph_spans_result(weights, morph_target_count, target_count, interpolation, step_start, r),
{
    let mut out: Vec<KeyframeSpan<W>> = Vec::new();
    let mut i: usize = 0;
    while i < target_count
        invariant
            i <= target_count,
            out@.len() == i,
            forall|j: int|
                0 <= j < i ==> #[trigger] morph_span(
                    weights,
                    morph_target_count,
                    j,
                    interpolation,
                    step_start as int,
                ) == Ok::<KeyframeSpan<W>, AnimationEvaluationError>(out@[j]),
        decreases target_count - i,
    {
        let keyframes = GetMorphWeightKeyframe {
            weights,
            morph_target_count,
            morph_target_index: i,
        };
        match interpolate_keyframes(&keyframes, interpolation, step_start) {
            Ok(span) => out.push(span),
            Err(e) => {
                assert(morph_span(weights, morph_target_count, i as int, interpolation, step_start as int) is Err);
                return Err(e);
            },
        }
        i += 1;
    }
    Ok(out)
}

/// The keyframes of one morph target, read out of the flattened weights.
pub struct GetMorphWeightKeyframe<'k, W> {
    /// The flattened weights of all morph targets.
    pub weights: &'k Vec<W>,
    /// The number of weights per keyframe.
    pub morph_target_count: usize,
    /// The morph target that this list reads.
    pub morph_target_index: usize,
}

impl<'k, W: Copy> GetKeyframe<W> for GetMorphWeightKeyframe<'k, W> {
    open spec fn keyframe(&self, index: usize) -> Option<W> {
        keyframe_at(
            self.weights,
            morph_weight_index(
                index as int,
                self.morph_target_count as int,
                self.morph_target_index as int,
            ),
        )
    }

    fn get_keyframe(&self, index: usize) -> (r: Option<W>) {
        match index.checked_mul(self.morph_target_count) {
            Some(base) => match base.checked_add(self.morph_target_index) {
                Some(flat) => self.weights.get_keyframe(flat),
                None => None,
            },
            None => {
                proof {
                    assert(index as int * self.morph_target_count as int
                        + self.morph_target_index as int > usize::MAX) by (nonlinear_arith)
                        requires
                            index as int * self.morph_target_count as int > usize::MAX,
                            self.morph_target_index >= 0,
                    ;
                }
                None
            },
        }
    }
}

/// A transform: a translation, a rotation and a scale.
#[derive(Clone, Copy, Debug, PartialEq)]
pub struct Transform<V, Q> {
    /// The position.
    pub translation: V,
    /// The orientation.
    pub rotation: Q,
    /// The scale along each axis.
    pub scale: V,
}

/// A property that a track can animate inside components of type `C`.
pub trait AnimatableProperty<C> {
    /// The type of the property's values.
    type Property;

    /// The property's value in `component`, if the component has it.
    spec fn property(component: C) -> Option<Self::Property>;

    /// The component with the property set to `value`.
    spec fn with_property(component: C, value: Self::Property) -> C;

    /// Reads the property.
    fn get(component: &C) -> (r: Option<Self::Property>)
        ensures
            r == Self::property(*component),
    ;

    /// Writes the property where the component has it; returns whether it
    /// did.
    fn set(component: &mut C, value: Self::Property) -> (r: bool)
        ensures
            r == Self::property(*old(component)) is Some,
            r ==> *final(component) == Self::with_property(*old(component), value),
            !r ==> *final(component) == *old(component),
    ;
}

/// Looks up the destination of a track that animates property `P` of a
/// component that the object may lack.
pub fn find_destination<C, P: AnimatableProperty<C>>(component: Option<&C>) -> (r: Destination)
    ensures
        component is None ==> r == Destination::ComponentMissing,
        component is Some && P::property(*component->0) is None ==> r
            == Destination::PropertyMissing,
        component is Some && P::property(*component->0) is Some ==> r == Destination::Found,
{
    match component {
        None => Destination::ComponentMissing,
        Some(c) => match P::get(c) {
            None => Destination::PropertyMissing,
            Some(_) => Destination::Found,
        },
    }
}

/// The translation of a transform.
pub struct Translation;

/// The scale of a transform.
pub struct Scale;

/// The rotation of a transform.
pub struct Rotation;

impl<V: Copy, Q: Copy> AnimatableProperty<Transform<V, Q>> for Translation {
    type Property = V;

    open spec fn property(component: Transform<V, Q>) -> Option<V> {
        Some(component.translation)
    }

    open spec fn with_property(component: Transform<V, Q>, value: V) -> Transform<V, Q> {
        Transform { translation: value, ..component }
    }

    fn get(component: &Transform<V, Q>) -> (r: Option<V>) {
        Some(component.translation)
    }

    fn set(component: &mut Transform<V, Q>, value: V) -> (r: bool) {
        component.translation = value;
        true
    }
}

impl<V: Copy, Q: Copy> AnimatableProperty<Transform<V, Q>> for Scale {
    type Property = V;

    open spec fn property(component: Transform<V, Q>) -> Option<V> {
        Some(component.scale)
    }

    open spec fn with_property(component: Transform<V, Q>, value: V) -> Transform<V, Q> {
        Transform { scale: value, ..component }
    }

    fn get(component: &Transform<V, Q>) -> (r: Option<V>) {
        Some(component.scale)
    }

    fn set(component: &mut Transform<V, Q>, value: V) -> (r: bool) {
        component.scale = value;
        true
    }
}

impl<V: Copy, Q: Copy> AnimatableProperty<Transform<V, Q>> for Rotation {
    type Property = Q;

    open spec fn property(component: Transform<V, Q>) -> Option<Q> {
        Some(component.rotation)
    }

    open spec fn with_property(component: Transform<V, Q>, value: Q) -> Transform<V, Q> {
        Transform { rotation: value, ..component }
    }

    fn get(component: &Transform<V, Q>) -> (r: Option<Q>) {
        Some(component.rotation)
    }

    fn set(component: &mut Transform<V, Q>, value: Q) -> (r: bool) {
        component.rotation = value;
        true
    }
}

} // verus!
