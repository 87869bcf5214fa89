use animation_core::interpolation::{
    interpolate_keyframes, AnimationEvaluationError, GetKeyframe, Interpolation, KeyframeSpan,
};
use animation_core::keyframes::{
    find_destination, AnimatableProperty, AnimatablePropertyKeyframes, Destination,
    MorphWeightsKeyframes, Rotation, Scale, Transform, Translation,
};

#[test]
fn step_reads_start_keyframe() {
    let keyframes = vec![1.0f32, 2.0, 3.0];
    assert_eq!(
        interpolate_keyframes(&keyframes, Interpolation::Step, 1),
        Ok(KeyframeSpan::Step(2.0f32))
    );
    assert_eq!(
        interpolate_keyframes(&keyframes, Interpolation::Step, 3),
        Err(AnimationEvaluationError::KeyframeNotPresent)
    );
}

#[test]
fn linear_reads_neighbours() {
    let track = AnimatablePropertyKeyframes::new(1, vec![0.0f32, 10.0, 20.0]);
    let span = track.apply_tweened_keyframes(Destination::Found, Interpolation::Linear, 0);
    assert_eq!(span, Ok(KeyframeSpan::Linear { start: 0.0f32, end: 10.0 }));
    assert_eq!(
        track.apply_tweened_keyframes(Destination::Found, Interpolation::Linear, 2),
        Err(AnimationEvaluationError::KeyframeNotPresent)
    );
}

#[test]
fn cubic_reads_value_tangent_triplets() {
    // (in-tangent, value, out-tangent) for two keyframes
    let keyframes = vec![10u32, 11, 12, 20, 21, 22];
    assert_eq!(
        interpolate_keyframes(&keyframes, Interpolation::CubicSpline, 0),
        Ok(KeyframeSpan::Cubic { start: 11, start_tangent: 12, end_tangent: 20, end: 21 })
    );
    assert_eq!(
        interpolate_keyframes(&keyframes, Interpolation::CubicSpline, 1),
        Err(AnimationEvaluationError::KeyframeNotPresent)
    );
    assert_eq!(
        interpolate_keyframes(&keyframes, Interpolation::CubicSpline, usize::MAX),
        Err(AnimationEvaluationError::KeyframeNotPresent)
    );
}

#[test]
fn empty_track_has_no_single_keyframe() {
    let track: AnimatablePropertyKeyframes<f32> = AnimatablePropertyKeyframes::new(1, vec![]);
    assert_eq!(track.keyframe_count(), 0);
    assert_eq!(
        track.apply_single_keyframe(Destination::Found),
        Err(AnimationEvaluationError::KeyframeNotPresent)
    );
}

#[test]
fn single_keyframe_reads_first() {
    let track = AnimatablePropertyKeyframes::new(1, vec![4.0f32, 8.0]);
    assert_eq!(track.keyframe_count(), 2);
    assert_eq!(track.get_component_type_id(), 1);
    assert_eq!(track.get_keyframe(1), Some(8.0));
    assert_eq!(track.apply_single_keyframe(Destination::Found), Ok(4.0));
}

#[test]
fn missing_destination_errors_come_first() {
    let track: AnimatablePropertyKeyframes<f32> = AnimatablePropertyKeyframes::new(1, vec![]);
    assert_eq!(
        track.apply_single_keyframe(Destination::ComponentMissing),
        Err(AnimationEvaluationError::ComponentNotPresent)
    );
    assert_eq!(
        track.apply_tweened_keyframes(Destination::PropertyMissing, Interpolation::Step, 0),
        Err(AnimationEvaluationError::PropertyNotPresent)
    );
}

#[test]
fn morph_weight_flat_index() {
    let morph = MorphWeightsKeyframes {
        component_type: 2,
        morph_target_count: 3,
        weights: vec![0.0f32, 1.0, 2.0, 3.0, 4.0, 5.0, 6.0, 7.0, 8.0],
    };
    assert_eq!(morph.keyframe_count(), 3);
    assert_eq!(morph.target(1).get_keyframe(2), Some(7.0));
    assert_eq!(morph.target(1).get_keyframe(3), None);
}

#[test]
fn morph_weights_single_and_tweened() {
    let morph = MorphWeightsKeyframes {
        component_type: 2,
        morph_target_count: 2,
        weights: vec![0.0f32, 1.0, 10.0, 11.0],
    };
    assert_eq!(morph.apply_single_keyframe(Destination::Found, 2), Ok(vec![0.0f32, 1.0]));
    assert_eq!(
        morph.apply_single_keyframe(Destination::Found, 5),
        Err(AnimationEvaluationError::KeyframeNotPresent)
    );
    assert_eq!(
        morph.apply_single_keyframe(Destination::ComponentMissing, 2),
        Err(AnimationEvaluationError::ComponentNotPresent)
    );
    assert_eq!(
        morph.apply_tweened_keyframes(Destination::Found, 2, Interpolation::Linear, 0),
        Ok(vec![
            KeyframeSpan::Linear { start: 0.0f32, end: 10.0 },
            KeyframeSpan::Linear { start: 1.0f32, end: 11.0 },
        ])
    );
    assert_eq!(
        morph.apply_tweened_keyframes(Destination::Found, 2, Interpolation::Linear, 1),
        Err(AnimationEvaluationError::KeyframeNotPresent)
    );
    assert_eq!(
        morph.apply_tweened_keyframes(Destination::Found, 2, Interpolation::Step, 1),
        Ok(vec![KeyframeSpan::Step(10.0f32), KeyframeSpan::Step(11.0)])
    );
}

#[test]
fn transform_properties() {
    let mut t = Transform { translation: (1, 2, 3), rotation: 7u8, scale: (4, 5, 6) };
    assert_eq!(<Translation as AnimatableProperty<_>>::get(&t), Some((1, 2, 3)));
    assert_eq!(<Scale as AnimatableProperty<_>>::get(&t), Some((4, 5, 6)));
    assert_eq!(<Rotation as AnimatableProperty<_>>::get(&t), Some(7u8));
    assert!(<Translation as AnimatableProperty<_>>::set(&mut t, (9, 9, 9)));
    assert!(<Rotation as AnimatableProperty<_>>::set(&mut t, 1u8));
    assert_eq!(t.translation, (9, 9, 9));
    assert_eq!(t.rotation, 1);
    assert_eq!(t.scale, (4, 5, 6));
    assert_eq!(find_destination::<_, Scale>(Some(&t)), Destination::Found);
    assert_eq!(
        find_destination::<Transform<(i32, i32, i32), u8>, Scale>(None),
        Destination::ComponentMissing
    );
}

#[test]
fn authored_keyframe_count_by_mode() {
    let track = AnimatablePropertyKeyframes::new(4, vec![1u8, 2, 3, 4, 5, 6]);
    assert_eq!(track.keyframe_count(), 6);
    assert_eq!(track.authored_keyframe_count(Interpolation::Linear), 6);
    assert_eq!(track.authored_keyframe_count(Interpolation::Step), 6);
    assert_eq!(track.authored_keyframe_count(Interpolation::CubicSpline), 2);
}

#[test]
fn empty_morph_track_has_no_single_keyframe() {
    let morph: MorphWeightsKeyframes<f32> =
        MorphWeightsKeyframes { component_type: 2, morph_target_count: 1, weights: vec![] };
    assert_eq!(morph.get_component_type_id(), 2);
    assert_eq!(morph.keyframe_count(), 0);
    assert_eq!(
        morph.apply_single_keyframe(Destination::Found, 0),
        Err(AnimationEvaluationError::KeyframeNotPresent)
    );
    assert_eq!(
        morph.apply_single_keyframe(Destination::Found, 3),
        Err(AnimationEvaluationError::KeyframeNotPresent)
    );
}
