use bevy::ecs::entity::Entity;
use tephrite_rs::use_cases::{
    entity_label, transform_aspect, transform_properties, RemoteControlTransform, TransformAspect,
    LOOK_AT_ASPECT, POSITION_ASPECT, SCALE_ASPECT,
};

/// The bits of the entity with index 5 and generation 1.
const E5V1: u64 = (1u64 << 32) | (u32::MAX - 5) as u64;

#[test]
fn entity_labels_use_the_entity_text() {
    let e = Entity::from_raw_u32(9).unwrap();
    assert_eq!(entity_label(None, e.to_bits(), " Scale"), format!("Entity {e} Scale"));
    assert_eq!(entity_label(None, e.to_bits(), " Scale"), "Entity 9v0 Scale");
    assert_eq!(entity_label(None, Entity::PLACEHOLDER.to_bits(), ""), "Entity PLACEHOLDER");
    assert_eq!(entity_label(Some("lamp"), e.to_bits(), " Scale"), "lamp Scale");
}

#[test]
fn default_transform_control_offers_position_and_look_at() {
    let opts = RemoteControlTransform::default();
    assert!(opts.position);
    assert!(opts.rotation);
    assert!(!opts.scale);
    let props = transform_properties(&opts, Some("cube"), E5V1);
    assert_eq!(
        props,
        vec![
            (POSITION_ASPECT, "cube Position".to_string()),
            (LOOK_AT_ASPECT, "cube Look At Position".to_string()),
        ]
    );
}

#[test]
fn unnamed_entities_are_labelled_by_entity() {
    let opts = RemoteControlTransform { position: false, rotation: false, scale: true };
    let props = transform_properties(&opts, None, E5V1);
    assert_eq!(props, vec![(SCALE_ASPECT, "Entity 5v1 Scale".to_string())]);
    assert_eq!(entity_label(None, (2u64 << 32) | u64::from(u32::MAX - 7), " Position"), "Entity 7v2 Position");
    let none = RemoteControlTransform { position: false, rotation: false, scale: false };
    assert!(transform_properties(&none, Some("cube"), E5V1).is_empty());
}

#[test]
fn transform_aspects_route_events() {
    assert_eq!(transform_aspect(POSITION_ASPECT), Some(TransformAspect::Position));
    assert_eq!(transform_aspect(LOOK_AT_ASPECT), Some(TransformAspect::LookAt));
    assert_eq!(transform_aspect(SCALE_ASPECT), Some(TransformAspect::Scale));
    assert_eq!(transform_aspect(3), None);
}
