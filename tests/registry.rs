use animation_core::interpolation::{AnimationEvaluationError, Interpolation, KeyframeSpan};
use animation_core::registry::{
    AnimatableRegistry, ErasedKeyframes, MorphWeightsReflectAnimatable, ReflectAnimatable,
};

#[test]
fn registry_lookup() {
    let mut registry = AnimatableRegistry::new();
    assert_eq!(registry.get(5), None);
    registry.register(5);
    registry.register(5);
    assert_eq!(registry.get(5), Some(ReflectAnimatable { value_type: 5 }));
    assert_eq!(registry.get(6), None);
}

#[test]
fn reflect_animatable_checks_types() {
    let entry = ReflectAnimatable::from_type(1);
    let keyframes = ErasedKeyframes { value_type: 1, values: vec![3.0f32, 4.0] };
    let other = ErasedKeyframes { value_type: 2, values: vec![3.0f32, 4.0] };
    let empty: ErasedKeyframes<f32> = ErasedKeyframes { value_type: 1, values: vec![] };
    assert_eq!(entry.interpolate_first_keyframe(1, &keyframes), Ok(3.0));
    assert_eq!(
        entry.interpolate_first_keyframe(1, &other),
        Err(AnimationEvaluationError::MalformedKeyframes)
    );
    assert_eq!(
        entry.interpolate_first_keyframe(2, &keyframes),
        Err(AnimationEvaluationError::PropertyNotPresent)
    );
    assert_eq!(
        entry.interpolate_first_keyframe(1, &empty),
        Err(AnimationEvaluationError::KeyframeNotPresent)
    );
    assert_eq!(
        entry.interpolate_keyframes(1, &keyframes, Interpolation::Linear, 0),
        Ok(KeyframeSpan::Linear { start: 3.0f32, end: 4.0 })
    );
    assert_eq!(
        entry.interpolate_keyframes(1, &other, Interpolation::Linear, 0),
        Err(AnimationEvaluationError::MalformedKeyframes)
    );
}

#[test]
fn morph_weights_entry() {
    let entry = MorphWeightsReflectAnimatable { weights_type: 7, keyframe_type: 1 };
    let keyframes = ErasedKeyframes { value_type: 1, values: vec![0.0f32, 1.0, 10.0, 11.0] };
    let wrong = ErasedKeyframes { value_type: 3, values: vec![0.0f32, 1.0] };
    assert_eq!(entry.interpolate_first_keyframe(7, 2, &keyframes), Ok(vec![0.0f32, 1.0]));
    assert_eq!(
        entry.interpolate_first_keyframe(7, 5, &keyframes),
        Err(AnimationEvaluationError::KeyframeNotPresent)
    );
    assert_eq!(
        entry.interpolate_first_keyframe(7, 2, &wrong),
        Err(AnimationEvaluationError::MalformedKeyframes)
    );
    assert_eq!(
        entry.interpolate_first_keyframe(8, 2, &keyframes),
        Err(AnimationEvaluationError::PropertyNotPresent)
    );
    assert_eq!(
        entry.interpolate_keyframes(7, 2, &keyframes, Interpolation::Linear, 0),
        Ok(vec![
            KeyframeSpan::Linear { start: 0.0f32, end: 10.0 },
            KeyframeSpan::Linear { start: 1.0f32, end: 11.0 },
        ])
    );
    let empty: ErasedKeyframes<f32> = ErasedKeyframes { value_type: 1, values: vec![] };
    assert_eq!(
        entry.interpolate_first_keyframe(7, 0, &empty),
        Err(AnimationEvaluationError::KeyframeNotPresent)
    );
    assert_eq!(
        entry.interpolate_keyframes(7, 2, &keyframes, Interpolation::Step, 2),
        Err(AnimationEvaluationError::KeyframeNotPresent)
    );
}
