use field_sync::ComponentDynMut;
use field_sync::ComponentDynRef;
use field_sync::ComponentMut;
use field_sync::ComponentRef;
use field_sync::OwnedComponent;
use field_sync::OwnedReplicatedValue;
use field_sync::ProtocolType;
use field_sync::ReplicateSafe;
use field_sync::ReplicatedValue;

struct TestProtocol;

impl ProtocolType for TestProtocol {}

#[derive(Debug, PartialEq)]
struct Position {
    x: i32,
    y: i32,
}

impl ReplicateSafe<TestProtocol> for Position {}

#[test]
fn typed_ref_derefs_to_the_wrapped_value() {
    let access: OwnedComponent<TestProtocol, Position> =
        OwnedComponent::new(Position { x: 3, y: -7 });
    let wrapper = ComponentRef::new(access);
    assert_eq!(*wrapper.component_deref(), Position { x: 3, y: -7 });
}

#[test]
fn typed_mut_write_is_visible_through_a_later_ref() {
    let access: OwnedComponent<TestProtocol, Position> =
        OwnedComponent::new(Position { x: 1, y: 2 });
    let mut wrapper = ComponentMut::new(access);
    assert_eq!(*wrapper.component_deref(), Position { x: 1, y: 2 });

    wrapper.component_deref_mut().x = 40;
    *wrapper.component_deref_mut() = Position {
        x: wrapper.component_deref().x,
        y: 50,
    };

    assert_eq!(*wrapper.component_deref(), Position { x: 40, y: 50 });
}

#[test]
fn dyn_ref_derefs_to_the_wrapped_erased_value() {
    let access: OwnedReplicatedValue<TestProtocol> = OwnedReplicatedValue::new(ReplicatedValue {
        type_tag: 7,
        bytes: vec![1, 2, 3],
    });
    let wrapper = ComponentDynRef::new(access);
    let value = wrapper.component_dyn_deref();
    assert_eq!(value.type_tag, 7);
    assert_eq!(value.bytes, vec![1, 2, 3]);
}

#[test]
fn dyn_mut_write_is_visible_through_a_later_ref() {
    let access: OwnedReplicatedValue<TestProtocol> = OwnedReplicatedValue::new(ReplicatedValue {
        type_tag: 7,
        bytes: vec![1, 2, 3],
    });
    let mut wrapper = ComponentDynMut::new(access);
    assert_eq!(wrapper.component_dyn_deref().bytes, vec![1, 2, 3]);

    wrapper.component_dyn_deref_mut().bytes.push(4);
    wrapper.component_dyn_deref_mut().type_tag = 9;

    let value = wrapper.component_dyn_deref();
    assert_eq!(value.type_tag, 9);
    assert_eq!(value.bytes, vec![1, 2, 3, 4]);
}
