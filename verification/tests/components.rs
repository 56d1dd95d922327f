use cgmath::Point2;
use cgmath::Vector2;
use engine::component::messages::ComponentMessage;
use engine::component::traits::Composite;
use engine::component::Component;
use engine::component::ComponentsGroup;
use engine::graphics::Sprite;
use engine::group::SomeGroup;
use engine::messaging::traits::Messaging;
use engine::physics::components::PhysicsComponent;
use engine::physics::messages::PhysicsMessage;
use engine::rect::Rect;
use glium::glutin::dpi::PhysicalSize;

fn host_at(x: f64, y: f64) -> Sprite<f64, ()> {
    let rect = Rect::new(Point2::new(x, y), PhysicalSize::new(10.0, 20.0));
    Sprite::new(rect, (), None, 1, 1, 1, 1, None, false)
}

fn force(x: f64, y: f64) -> ComponentMessage<f64> {
    ComponentMessage::PhysicsMessage(PhysicsMessage::apply_force(x, y))
}

fn velocity_of(group: &ComponentsGroup<f64>, i: usize) -> Vector2<f64> {
    match group.get(i) {
        Some(Component::PhysicsComponent(p)) => p.velocity,
        None => panic!("slot {} is empty", i),
    }
}

fn waiting_in(group: &mut ComponentsGroup<f64>, i: usize) -> (usize, usize) {
    match group.get_mut(i) {
        Some(component) => {
            (component.input_messages().size(), component.output_messages().size())
        },
        None => panic!("slot {} is empty", i),
    }
}

#[test]
fn new_components_group_is_empty() {
    let mut group: ComponentsGroup<f64> = ComponentsGroup::new();
    assert!(group.get_elements().is_empty());
    assert_eq!(group.input_messages().size(), 0);
    assert_eq!(group.output_messages().size(), 0);
}

#[test]
fn components_group_from_keeps_order() {
    let group = ComponentsGroup::from(vec![
        PhysicsComponent::new(1.0, 0.0),
        PhysicsComponent::new(2.0, 0.0),
        PhysicsComponent::new(3.0, 0.0),
    ]);
    let masses: Vec<f64> = (0..3)
        .map(|i| match group.get(i) {
            Some(Component::PhysicsComponent(p)) => p.mass,
            None => 0.0,
        })
        .collect();
    assert_eq!(masses, vec![1.0, 2.0, 3.0]);
}

#[test]
fn append_and_push_add_behind() {
    let mut group = ComponentsGroup::from(vec![PhysicsComponent::new(1.0, 0.0)]);
    group.append(vec![PhysicsComponent::new(2.0, 0.0), PhysicsComponent::new(3.0, 0.0)]);
    group.push(PhysicsComponent::new(4.0, 0.0));
    group.append(Vec::new());
    assert_eq!(group.get_elements().len(), 4);
    for i in 0..4usize {
        match group.get(i) {
            Some(Component::PhysicsComponent(p)) => assert_eq!(p.mass, (i + 1) as f64),
            None => panic!("slot {} is empty", i),
        }
    }
}

#[test]
fn tick_without_components_changes_nothing() {
    let group: ComponentsGroup<f64> = ComponentsGroup::new();
    let (group, host) = group.updated(16, host_at(3.0, 4.0));
    assert!(group.get_elements().is_empty());
    assert_eq!(host.rect.position, Point2::new(3.0, 4.0));
}

#[test]
fn message_is_broadcast_in_the_tick_in_which_it_waits() {
    let mut a = PhysicsComponent::new(10.0, 0.0);
    let b = PhysicsComponent::new(20.0, 0.0);
    a.send_msg(force(100.0, -50.0));
    let group = ComponentsGroup::from(vec![a, b]);
    let (mut group, _host) = group.updated(0, host_at(0.0, 0.0));
    assert_eq!(velocity_of(&group, 1), Vector2::new(5.0, -2.5));
    assert_eq!(velocity_of(&group, 0), Vector2::new(10.0, -5.0));
    assert_eq!(waiting_in(&mut group, 0), (0, 0));
    assert_eq!(waiting_in(&mut group, 1), (0, 0));
    let (group, _host) = group.updated(0, host_at(0.0, 0.0));
    assert_eq!(velocity_of(&group, 1), Vector2::new(5.0, -2.5));
    assert_eq!(velocity_of(&group, 0), Vector2::new(10.0, -5.0));
}

#[test]
fn message_sent_after_a_tick_waits_for_the_next() {
    let group = ComponentsGroup::from(vec![
        PhysicsComponent::new(1.0, 0.0),
        PhysicsComponent::new(2.0, 0.0),
    ]);
    let (mut group, host) = group.updated(0, host_at(0.0, 0.0));
    if let Some(component) = group.get_mut(1) {
        component.send_msg(force(8.0, 0.0));
    }
    assert_eq!(velocity_of(&group, 0), Vector2::new(0.0, 0.0));
    assert_eq!(waiting_in(&mut group, 1), (0, 1));
    let (mut group, _host) = group.updated(0, host);
    assert_eq!(velocity_of(&group, 0), Vector2::new(8.0, 0.0));
    assert_eq!(velocity_of(&group, 1), Vector2::new(4.0, 0.0));
    assert_eq!(waiting_in(&mut group, 1), (0, 0));
}

#[test]
fn what_waited_in_the_inbox_is_handled_before_the_broadcast() {
    let a = 1152921504606846976.0;
    let mut first = PhysicsComponent::new(1.0, 0.0);
    let mut second = PhysicsComponent::new(1.0, 0.0);
    first.reveive_msg(force(a, 0.0));
    second.send_msg(force(-a, 0.0));
    first.send_msg(force(1.0, 0.0));
    let group = ComponentsGroup::from(vec![first, second]);
    let (group, _host) = group.updated(0, host_at(0.0, 0.0));
    assert_eq!(velocity_of(&group, 0), Vector2::new(1.0, 0.0));
    assert_eq!(velocity_of(&group, 1), Vector2::new(-a, 0.0));
}

#[test]
fn broadcast_starts_with_the_last_slot() {
    let a = 1152921504606846976.0;
    let mut first = PhysicsComponent::new(1.0, 0.0);
    let mut second = PhysicsComponent::new(1.0, 0.0);
    first.send_msg(force(1.0, 0.0));
    second.send_msg(force(a, 0.0));
    second.send_msg(force(-a, 0.0));
    let group = ComponentsGroup::from(vec![first, second]);
    let (group, _host) = group.updated(0, host_at(0.0, 0.0));
    assert_eq!(velocity_of(&group, 0), Vector2::new(1.0, 0.0));
    assert_eq!(velocity_of(&group, 1), Vector2::new(1.0, 0.0));
}

#[test]
fn notices_are_broadcast_and_ignored() {
    let mut a = PhysicsComponent::new(1.0, 0.0);
    a.send_msg(ComponentMessage::Notice(42));
    let group = ComponentsGroup::from(vec![a, PhysicsComponent::new(1.0, 0.0)]);
    let (mut group, _host) = group.updated(0, host_at(0.0, 0.0));
    assert_eq!(velocity_of(&group, 0), Vector2::new(0.0, 0.0));
    assert_eq!(velocity_of(&group, 1), Vector2::new(0.0, 0.0));
    assert_eq!(waiting_in(&mut group, 0), (0, 0));
    assert_eq!(waiting_in(&mut group, 1), (0, 0));
}

#[test]
fn every_component_moves_the_host() {
    let group = ComponentsGroup::from(vec![
        PhysicsComponent::new(1.0, 2.0),
        PhysicsComponent::new(1.0, 4.0),
    ]);
    let (group, host) = group.updated(1000, host_at(1.0, 10.0));
    assert_eq!(host.rect.position, Point2::new(1.0, 10.0 + 2.0 + 1.0));
    assert_eq!(host.rect.size, PhysicalSize::new(10.0, 20.0));
    assert_eq!(velocity_of(&group, 0), Vector2::new(0.0, 2.0));
    assert_eq!(velocity_of(&group, 1), Vector2::new(0.0, 4.0));
}

#[test]
fn the_last_slot_moves_the_host_first() {
    let mut rising = match PhysicsComponent::new(1.0, 0.0) {
        Component::PhysicsComponent(p) => p,
    };
    rising.velocity = Vector2::new(0.0, -10.0);
    let mut falling = match PhysicsComponent::new(1.0, 0.0) {
        Component::PhysicsComponent(p) => p,
    };
    falling.velocity = Vector2::new(0.0, 10.0);
    let group = ComponentsGroup::from(vec![
        Component::PhysicsComponent(rising),
        Component::PhysicsComponent(falling),
    ]);
    let (_group, host) = group.updated(1000, host_at(0.0, 765.0));
    assert_eq!(host.rect.position.y, 758.0);
}

#[test]
fn tick_passes_over_empty_slots_and_keeps_them() {
    let mut group = ComponentsGroup::from(vec![
        PhysicsComponent::new(1.0, 2.0),
        PhysicsComponent::new(1.0, 4.0),
        PhysicsComponent::new(1.0, 6.0),
    ]);
    group.get_elements_mut()[1] = None;
    let (group, host) = group.updated(1000, host_at(0.0, 0.0));
    assert_eq!(group.get_elements().len(), 3);
    assert!(group.get(1).is_none());
    assert_eq!(host.rect.position.y, 3.0 + 1.0);
    assert_eq!(velocity_of(&group, 0), Vector2::new(0.0, 2.0));
    assert_eq!(velocity_of(&group, 2), Vector2::new(0.0, 6.0));
}

#[test]
fn tick_leaves_the_mailboxes_of_the_group_alone() {
    let mut group = ComponentsGroup::from(vec![PhysicsComponent::new(1.0, 0.0)]);
    group.reveive_msg(force(1.0, 1.0));
    group.send_msg(ComponentMessage::Notice(1));
    group.send_msg(ComponentMessage::Notice(2));
    let (mut group, _host) = group.updated(16, host_at(0.0, 0.0));
    assert_eq!(group.input_messages().size(), 1);
    assert_eq!(group.output_messages().size(), 2);
    assert_eq!(velocity_of(&group, 0), Vector2::new(0.0, 0.0));
    group.handle_messages();
    assert_eq!(group.input_messages().size(), 0);
    assert_eq!(group.output_messages().size(), 2);
    assert_eq!(velocity_of(&group, 0), Vector2::new(0.0, 0.0));
}

#[test]
fn components_group_call_keeps_components() {
    let mut group = ComponentsGroup::from(vec![
        PhysicsComponent::new(1.0, 0.0),
        PhysicsComponent::new(2.0, 0.0),
    ]);
    group.call(|component| component);
    assert_eq!(group.get_elements().len(), 2);
    match group.take_el(0) {
        Some(Component::PhysicsComponent(p)) => assert_eq!(p.mass, 1.0),
        None => panic!("slot 0 is empty"),
    }
    assert_eq!(group.get_elements().len(), 1);
}

#[test]
fn with_component_starts_a_group_or_joins_it() {
    let sprite = host_at(0.0, 0.0);
    assert!(sprite.get_components().is_none());
    let sprite = sprite.with_component(PhysicsComponent::new(1.0, 9.8));
    assert_eq!(sprite.get_components().as_ref().map(|g| g.get_elements().len()), Some(1));
    let sprite = sprite.with_component(PhysicsComponent::new(2.0, 9.8));
    let group = sprite.get_components().as_ref();
    assert_eq!(group.map(|g| g.get_elements().len()), Some(2));
    match group.and_then(|g| g.get(1)) {
        Some(Component::PhysicsComponent(p)) => assert_eq!(p.mass, 2.0),
        None => panic!("slot 1 is empty"),
    }
}

#[test]
fn with_components_starts_a_group_or_joins_it() {
    let sprite = host_at(0.0, 0.0)
        .with_components(vec![PhysicsComponent::new(1.0, 9.8), PhysicsComponent::new(2.0, 9.8)]);
    assert_eq!(sprite.get_components().as_ref().map(|g| g.get_elements().len()), Some(2));
    let mut sprite = sprite.with_components(vec![PhysicsComponent::new(3.0, 9.8)]);
    let masses: Vec<f64> = match sprite.get_components_mut() {
        Some(group) => (0..3)
            .map(|i| match group.get(i) {
                Some(Component::PhysicsComponent(p)) => p.mass,
                None => 0.0,
            })
            .collect(),
        None => Vec::new(),
    };
    assert_eq!(masses, vec![1.0, 2.0, 3.0]);
    let sprite = host_at(0.0, 0.0).with_components(Vec::new());
    assert_eq!(sprite.get_components().as_ref().map(|g| g.get_elements().len()), Some(0));
}

#[test]
fn can_update_tells_whether_time_fits() {
    let mut full = match PhysicsComponent::new(1.0, 0.0) {
        Component::PhysicsComponent(p) => p,
    };
    full.time_elapsed = u32::MAX - 5;
    let mut group = ComponentsGroup::from(vec![
        PhysicsComponent::new(1.0, 0.0),
        Component::PhysicsComponent(full),
    ]);
    assert!(group.can_update(5));
    assert!(group.can_update(0));
    assert!(!group.can_update(6));
    assert!(!group.can_update(u32::MAX));
    let sprite = host_at(0.0, 0.0);
    assert!(sprite.can_update(u32::MAX));
    let _ = group.take_el(1);
    assert!(group.can_update(u32::MAX));
    let sprite = sprite.with_components(Vec::new());
    assert!(sprite.can_update(u32::MAX));
    let empty: ComponentsGroup<f64> = ComponentsGroup::new();
    assert!(empty.can_update(u32::MAX));
}
