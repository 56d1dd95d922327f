use cgmath::Point2;
use cgmath::Vector2;
use engine::component::messages::ComponentMessage;
use engine::component::Component;
use engine::graphics::Sprite;
use engine::messaging::traits::Messaging;
use engine::misc_traits::update::Updatable;
use engine::physics::components::PhysicsComponent;
use engine::physics::messages::PhysicsMessage;
use engine::rect::Rect;
use glium::glutin::dpi::PhysicalSize;
use measurements::Mass;

fn physics(mass: f64, gravity: f64) -> PhysicsComponent<f64> {
    match PhysicsComponent::new(mass, gravity) {
        Component::PhysicsComponent(p) => p,
    }
}

fn host_at(x: f64, y: f64) -> Sprite<f64, ()> {
    let rect = Rect::new(Point2::new(x, y), PhysicalSize::new(10.0, 20.0));
    Sprite::new(rect, (), None, 1, 1, 1, 1, None, false)
}

fn close(a: f64, b: f64) -> bool {
    (a - b).abs() < 1e-9
}

#[test]
fn new_physics_component_is_at_rest() {
    let mut p = physics(Mass::from_kilograms(50.0).as_kilograms(), 9.8);
    assert_eq!(p.time_elapsed, 0);
    assert_eq!(p.mass, 50.0);
    assert_eq!(p.gravity, 9.8);
    assert_eq!(p.velocity, Vector2::new(0.0, 0.0));
    assert_eq!(p.acceleration, Vector2::new(0.0, 0.0));
    assert_eq!(p.input_messages().size(), 0);
    assert_eq!(p.output_messages().size(), 0);
    assert_eq!(p.get_delay(), 1);
    assert_eq!(p.get_time_elapsed(), 0);
}

#[test]
fn accelerate_adds_to_velocity() {
    let mut p = physics(2.0, 0.0);
    p.accelerate(Vector2::new(1.5, -2.0));
    p.accelerate(Vector2::new(0.5, 1.0));
    assert_eq!(p.velocity, Vector2::new(2.0, -1.0));
}

#[test]
fn apply_force_divides_by_mass() {
    let mut p = physics(50.0, 9.8);
    p.apply_force(Vector2::new(100.0, -25.0));
    assert_eq!(p.velocity, Vector2::new(2.0, -0.5));
    p.apply_force(Vector2::new(100.0, -25.0));
    assert_eq!(p.velocity, Vector2::new(4.0, -1.0));
    assert_eq!(p.mass, 50.0);
}

#[test]
fn apply_gravity_pushes_down_only() {
    let mut p = physics(4.0, 10.0);
    p.apply_gravity(0.5);
    assert_eq!(p.velocity, Vector2::new(0.0, 5.0));
}

#[test]
fn apply_constraint_puts_a_host_beyond_the_floor_on_it() {
    let mut beyond = Rect::new(Point2::new(3.0, 769.0), PhysicalSize::new(1.0, 1.0));
    PhysicsComponent::apply_constraint(&mut beyond);
    assert_eq!(beyond.position, Point2::new(3.0, 768.0));
    let mut on_it = Rect::new(Point2::new(3.0, 768.0), PhysicalSize::new(1.0, 1.0));
    PhysicsComponent::apply_constraint(&mut on_it);
    assert_eq!(on_it.position, Point2::new(3.0, 768.0));
    let mut above = Rect::new(Point2::new(3.0, 12.5), PhysicalSize::new(1.0, 1.0));
    PhysicsComponent::apply_constraint(&mut above);
    assert_eq!(above.position, Point2::new(3.0, 12.5));
}

#[test]
fn one_internal_update_integrates_sixteen_milliseconds() {
    let p = physics(50.0, 9.8);
    let mut rect = Rect::new(Point2::new(5.0, 0.0), PhysicalSize::new(1.0, 1.0));
    let p = p.updated_internal(16, &mut rect);
    let dt = 16.0 / 1000.0;
    let half_a = 0.5 * 9.8;
    assert_eq!(rect.position.x, 5.0);
    assert_eq!(rect.position.y, 0.0 * dt + half_a * dt * dt);
    assert_eq!(p.velocity.x, 0.0);
    assert_eq!(p.velocity.y, 0.0 + half_a * dt + half_a * dt);
    assert!(close(rect.position.y, 0.0012544));
    assert!(close(p.velocity.y, 0.1568));
}

#[test]
fn falling_matches_the_closed_form() {
    let mut component = PhysicsComponent::new(50.0, 9.8);
    let mut host = host_at(0.0, 0.0);
    let mut previous = 0.0;
    for tick in 1..=100u32 {
        component = component.updated(16, &mut host);
        let t = f64::from(tick) * 0.016;
        let expected = 0.5 * 9.8 * t * t;
        assert!(close(host.rect.position.y, expected));
        let t_before = f64::from(tick - 1) * 0.016;
        let step = 0.5 * 9.8 * (t * t - t_before * t_before);
        assert!(close(host.rect.position.y - previous, step));
        previous = host.rect.position.y;
        assert_eq!(host.rect.position.x, 0.0);
    }
    match component {
        Component::PhysicsComponent(p) => {
            assert!(close(p.velocity.y, 9.8 * 1.6));
            assert_eq!(p.time_elapsed, 0);
        },
    }
}

#[test]
fn falling_is_the_same_in_two_runs() {
    let mut first = PhysicsComponent::new(50.0, 9.8);
    let mut second = PhysicsComponent::new(50.0, 9.8);
    let mut first_host = host_at(1.0, 2.0);
    let mut second_host = host_at(1.0, 2.0);
    for _ in 0..200 {
        first = first.updated(16, &mut first_host);
        second = second.updated(16, &mut second_host);
        assert_eq!(first_host.rect.position.y.to_bits(), second_host.rect.position.y.to_bits());
        assert_eq!(first_host.rect.position.x.to_bits(), second_host.rect.position.x.to_bits());
        match (&first, &second) {
            (Component::PhysicsComponent(a), Component::PhysicsComponent(b)) => {
                assert_eq!(a.velocity.y.to_bits(), b.velocity.y.to_bits());
            },
        }
    }
}

#[test]
fn no_time_no_change() {
    let component = PhysicsComponent::new(50.0, 9.8);
    let mut host = host_at(4.0, 5.0);
    let component = component.updated(0, &mut host);
    assert_eq!(host.rect.position, Point2::new(4.0, 5.0));
    match component {
        Component::PhysicsComponent(p) => {
            assert_eq!(p.velocity, Vector2::new(0.0, 0.0));
            assert_eq!(p.time_elapsed, 0);
        },
    }
}

#[test]
fn update_moves_only_the_position_of_the_host() {
    let component = PhysicsComponent::new(50.0, 9.8);
    let rect = Rect::new(Point2::new(4.0, 5.0), PhysicalSize::new(10.0, 20.0));
    let mut host: Sprite<f64, u8> =
        Sprite::new(rect, 7, Some(String::from("fox")), 2, 3, 4, 5, None, true);
    let _ = component.updated(1000, &mut host);
    assert_eq!(host.rect.position.x, 4.0);
    assert_eq!(host.rect.position.y, 5.0 + 0.5 * 9.8);
    assert_eq!(host.rect.size, PhysicalSize::new(10.0, 20.0));
    assert_eq!(host.texture, 7);
    assert_eq!(host.name, Some(String::from("fox")));
    assert_eq!((host.frames_h, host.frames_v, host._cur_frame, host.layer), (2, 3, 4, 5));
    assert!(host.components.is_none());
    assert!(host._hidden);
}

#[test]
fn floor_clamps_the_host_and_keeps_the_velocity() {
    let mut p = physics(50.0, 9.8);
    p.velocity = Vector2::new(0.0, 500.0);
    let mut component = Component::PhysicsComponent(p);
    let mut host = host_at(2.0, 768.5);
    component = component.updated(1, &mut host);
    assert_eq!(host.rect.position.y, 768.0);
    assert_eq!(host.rect.position.x, 2.0);
    let velocity = match &component {
        Component::PhysicsComponent(p) => p.velocity.y,
    };
    assert_eq!(velocity, 500.0 + 0.5 * 9.8 * 0.001 + 0.5 * 9.8 * 0.001);
    component = component.updated(1, &mut host);
    assert_eq!(host.rect.position.y, 768.0);
    match component {
        Component::PhysicsComponent(p) => assert!(p.velocity.y > velocity),
    }
}

#[test]
fn host_just_below_the_floor_is_not_clamped() {
    let component = PhysicsComponent::new(1.0, 0.0);
    let mut host = host_at(0.0, 767.5);
    let _ = component.updated(16, &mut host);
    assert_eq!(host.rect.position.y, 767.5);
}

#[test]
fn force_message_is_built_from_its_parts() {
    let message: PhysicsMessage<f64> = PhysicsMessage::apply_force(3u32, -1.5f64);
    assert_eq!(message.force, (3.0, -1.5));
    let copy = message;
    assert_eq!(copy.force, message.force);
}

#[test]
fn force_message_pushes_and_other_messages_are_ignored() {
    let mut p = physics(10.0, 9.8);
    p.handle_message(ComponentMessage::PhysicsMessage(PhysicsMessage::apply_force(20.0, -5.0)));
    assert_eq!(p.velocity, Vector2::new(2.0, -0.5));
    p.handle_message(ComponentMessage::Notice(7));
    assert_eq!(p.velocity, Vector2::new(2.0, -0.5));
    assert_eq!(p.input_messages().size(), 0);
    assert_eq!(p.output_messages().size(), 0);
}

#[test]
fn physics_handles_what_was_received_in_order() {
    let a = 1152921504606846976.0;
    let mut p = physics(1.0, 0.0);
    p.reveive_msg(ComponentMessage::PhysicsMessage(PhysicsMessage::apply_force(a, 0.0)));
    p.reveive_msg(ComponentMessage::Notice(1));
    p.reveive_msg(ComponentMessage::PhysicsMessage(PhysicsMessage::apply_force(-a, 0.0)));
    p.reveive_msg(ComponentMessage::PhysicsMessage(PhysicsMessage::apply_force(1.0, 2.0)));
    p.handle_messages();
    assert_eq!(p.velocity, Vector2::new(1.0, 2.0));
    assert_eq!(p.input_messages().size(), 0);
}

#[test]
fn component_dispatches_messages_to_its_kind() {
    let mut component = PhysicsComponent::new(2.0, 0.0);
    component.reveive_msg(ComponentMessage::PhysicsMessage(PhysicsMessage::apply_force(4.0, 6.0)));
    component.send_msg(ComponentMessage::Notice(3));
    assert_eq!(component.input_messages().size(), 1);
    assert_eq!(component.output_messages().size(), 1);
    component.handle_messages();
    assert_eq!(component.input_messages().size(), 0);
    assert_eq!(component.output_messages().size(), 1);
    component.handle_message(ComponentMessage::PhysicsMessage(PhysicsMessage::apply_force(2.0, 0.0)));
    match component {
        Component::PhysicsComponent(p) => assert_eq!(p.velocity, Vector2::new(3.0, 3.0)),
    }
}
