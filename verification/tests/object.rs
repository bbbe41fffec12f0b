use viewer_core::object::RenderedObject;

#[test]
fn new_object_is_clean() {
    let mut object = RenderedObject::new(1u8, 'a');
    assert_eq!(*object.transform(), 1);
    assert_eq!(*object.model(), 'a');
    assert!(!object.is_dirty());
    assert!(!object.render());
}

#[test]
fn set_transform_is_dirty_at_once() {
    let mut object = RenderedObject::new(1u8, 'a');
    object.set_transform(2);
    assert_eq!(*object.transform(), 2);
    assert_eq!(*object.model(), 'a');
    assert!(object.is_dirty());
    assert!(object.render());
    assert!(!object.is_dirty());
    assert_eq!(*object.transform(), 2);
    assert!(!object.render());
}

#[test]
fn set_model_is_dirty_at_once() {
    let mut object = RenderedObject::new(1u8, 'a');
    object.set_model('b');
    assert_eq!(*object.transform(), 1);
    assert_eq!(*object.model(), 'b');
    assert!(object.is_dirty());
    assert!(object.render());
    assert!(!object.render());
}

#[test]
fn setting_an_equal_value_is_still_dirty() {
    let mut object = RenderedObject::new(1u8, 'a');
    object.set_transform(1);
    assert!(object.is_dirty());
    assert!(object.render());
}

#[test]
fn own_motion_moves_and_marks_dirty() {
    let mut object = RenderedObject::new(10u32, ());
    let moved = object.update(5, |transform, dt| {
        assert_eq!(*transform, 10);
        assert_eq!(dt, 5);
        Some(*transform + 5)
    });
    assert!(moved);
    assert_eq!(*object.transform(), 15);
    assert!(object.is_dirty());
    assert!(object.render());
    assert!(!object.render());
}

#[test]
fn standing_still_stays_clean() {
    let mut object = RenderedObject::new(10u32, ());
    let moved = object.update(5, |_, _| None);
    assert!(!moved);
    assert_eq!(*object.transform(), 10);
    assert!(!object.is_dirty());
    assert!(!object.render());
}

#[test]
fn changes_before_a_render_cost_one_upload() {
    let mut object = RenderedObject::new(0u32, 0u32);
    object.set_transform(1);
    object.set_model(2);
    object.update(1, |transform, _| Some(*transform + 1));
    object.set_transform(9);
    assert!(object.render());
    assert_eq!((*object.transform(), *object.model()), (9, 2));
    assert!(!object.render());
}
