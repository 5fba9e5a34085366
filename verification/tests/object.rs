use pw_monitor::object::{
    Handling, ObjectDescriptor, ObjectKind, ProxyKind, Subscriptions, PROPERTY_ACCEPTED,
};

#[test]
fn bound_kinds() {
    assert_eq!(ObjectKind::Node.handling(), Handling::Bind(ProxyKind::Node));
    assert_eq!(ObjectKind::Port.handling(), Handling::Bind(ProxyKind::Port));
    assert_eq!(ObjectKind::Link.handling(), Handling::Bind(ProxyKind::Link));
    assert_eq!(ObjectKind::Metadata.handling(), Handling::Bind(ProxyKind::Metadata));
}

#[test]
fn reserved_kinds() {
    assert_eq!(ObjectKind::Module.handling(), Handling::Reserved);
    assert_eq!(ObjectKind::Device.handling(), Handling::Reserved);
    assert_eq!(ObjectKind::Factory.handling(), Handling::Reserved);
    assert_eq!(ObjectKind::Client.handling(), Handling::Reserved);
}

#[test]
fn unknown_kind() {
    assert_eq!(ObjectKind::Other.handling(), Handling::Unrecognized);
}

#[test]
fn proxy_kind_names_its_object_kind() {
    for kind in [ProxyKind::Node, ProxyKind::Port, ProxyKind::Link, ProxyKind::Metadata] {
        assert_eq!(kind.object_kind().handling(), Handling::Bind(kind));
    }
    assert_eq!(ProxyKind::Metadata.object_kind(), ObjectKind::Metadata);
}

#[test]
fn subscriptions_by_kind() {
    let node = Subscriptions { info: true, param: true, property: false, removed: true };
    let link = Subscriptions { info: true, param: false, property: false, removed: true };
    let metadata = Subscriptions { info: false, param: false, property: true, removed: true };
    assert_eq!(ProxyKind::Node.subscriptions(), node);
    assert_eq!(ProxyKind::Port.subscriptions(), node);
    assert_eq!(ProxyKind::Link.subscriptions(), link);
    assert_eq!(ProxyKind::Metadata.subscriptions(), metadata);
}

#[test]
fn property_changes_are_accepted_with_zero() {
    assert_eq!(PROPERTY_ACCEPTED, 0);
}

#[test]
fn descriptor_hands_back_what_it_was_given() {
    let props = vec![
        (String::from("object.serial"), String::from("41")),
        (String::from("node.name"), String::from("alsa_output")),
    ];
    let descriptor = ObjectDescriptor::new(41, ObjectKind::Node, props.clone());
    assert_eq!(descriptor.id(), 41);
    assert_eq!(descriptor.kind(), ObjectKind::Node);
    assert_eq!(descriptor.props(), &props);
    let bare = ObjectDescriptor::new(0, ObjectKind::Other, Vec::new());
    assert_eq!(bare.id(), 0);
    assert!(bare.props().is_empty());
}

#[test]
fn kinds_by_interface_name() {
    assert_eq!(ObjectKind::from_type_name("PipeWire:Interface:Node"), ObjectKind::Node);
    assert_eq!(ObjectKind::from_type_name("PipeWire:Interface:Port"), ObjectKind::Port);
    assert_eq!(ObjectKind::from_type_name("PipeWire:Interface:Link"), ObjectKind::Link);
    assert_eq!(ObjectKind::from_type_name("PipeWire:Interface:Metadata"), ObjectKind::Metadata);
    assert_eq!(ObjectKind::from_type_name("PipeWire:Interface:Module"), ObjectKind::Module);
    assert_eq!(ObjectKind::from_type_name("PipeWire:Interface:Device"), ObjectKind::Device);
    assert_eq!(ObjectKind::from_type_name("PipeWire:Interface:Factory"), ObjectKind::Factory);
    assert_eq!(ObjectKind::from_type_name("PipeWire:Interface:Client"), ObjectKind::Client);
}

#[test]
fn unknown_interface_names_are_other() {
    assert_eq!(ObjectKind::from_type_name("PipeWire:Interface:Core"), ObjectKind::Other);
    assert_eq!(ObjectKind::from_type_name("PipeWire:Interface:Profiler"), ObjectKind::Other);
    assert_eq!(ObjectKind::from_type_name("PipeWire:Interface:node"), ObjectKind::Other);
    assert_eq!(ObjectKind::from_type_name("PipeWire:Interface:Node "), ObjectKind::Other);
    assert_eq!(ObjectKind::from_type_name("Node"), ObjectKind::Other);
    assert_eq!(ObjectKind::from_type_name(""), ObjectKind::Other);
}
