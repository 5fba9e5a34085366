//! Remote objects as the registry announces them, and what the client does
//! with each kind.

use vstd::prelude::*;

verus! {

/// The kind of a remote object, as the registry names it.
#[derive(Clone, Copy, Debug, PartialEq, Eq, Structural)]
pub enum ObjectKind {
    Node,
    Port,
    Link,
    Metadata,
    Module,
    Device,
    Factory,
    Client,
    /// Any kind that the client has no name for.
    Other,
}

/// The kinds of object to which the client binds a proxy.
#[derive(Clone, Copy, Debug, PartialEq, Eq, Structural)]
pub enum ProxyKind {
    Node,
    Port,
    Link,
    Metadata,
}

/// What the client does when an object of some kind appears.
#[derive(Clone, Copy, Debug, PartialEq, Eq, Structural)]
pub enum Handling {
    /// Bind a proxy of the given kind and listen to it.
    Bind(ProxyKind),
    /// A known kind that is accepted and left alone.
    Reserved,
    /// An unknown kind: shown for visibility and dropped.
    Unrecognized,
}

/// The events of a proxy that the client listens for.
#[derive(Clone, Copy, Debug, PartialEq, Eq, Structural)]
pub struct Subscriptions {
    /// Updates of the object's info.
    pub info: bool,
    /// Updates of the object's parameters.
    pub param: bool,
    /// Changes of a metadata property.
    pub property: bool,
    /// The removal of the proxy.
    pub removed: bool,
}

/// The status with which a property change is answered: accepted.
pub const PROPERTY_ACCEPTED: i32 = 0;

impl ObjectKind {
    /// The handling of each kind: node, port, link and metadata are bound,
    /// module, device, factory and client are reserved, the rest is unknown.
    pub open spec fn spec_handling(self) -> Handling {
        match self {
            ObjectKind::Node => Handling::Bind(ProxyKind::Node),
            ObjectKind::Port => Handling::Bind(ProxyKind::Port),
            ObjectKind::Link => Handling::Bind(ProxyKind::Link),
            ObjectKind::Metadata => Handling::Bind(ProxyKind::Metadata),
            ObjectKind::Module | ObjectKind::Device | ObjectKind::Factory | ObjectKind::Client =>
                Handling::Reserved,
            ObjectKind::Other => Handling::Unrecognized,
        }
    }

    /// Whether a proxy is bound to objects of this kind.
    pub open spec fn is_bound(self) -> bool {
        self.spec_handling() is Bind
    }

    /// The kind that the registry means by the interface name `name`.
    pub open spec fn spec_from_type_name(name: Seq<char>) -> ObjectKind {
        if name == "PipeWire:Interface:Node"@ {
            ObjectKind::Node
        } else if name == "PipeWire:Interface:Port"@ {
            ObjectKind::Port
        } else if name == "PipeWire:Interface:Link"@ {
            ObjectKind::Link
        } else if name == "PipeWire:Interface:Metadata"@ {
            ObjectKind::Metadata
        } else if name == "PipeWire:Interface:Module"@ {
            ObjectKind::Module
        } else if name == "PipeWire:Interface:Device"@ {
            ObjectKind::Device
        } else if name == "PipeWire:Interface:Factory"@ {
            ObjectKind::Factory
        } else if name == "PipeWire:Interface:Client"@ {
            ObjectKind::Client
        } else {
            ObjectKind::Other
        }
    }

    /// The kind that the registry means by the interface name `name`; a
    /// name that the client does not know gives [`ObjectKind::Other`].
    pub fn from_type_name(name: &str) -> (kind: ObjectKind)
        ensures
            kind == Self::spec_from_type_name(name@),
    {
        let name = name.to_owned();
        if name == "PipeWire:Interface:Node".to_owned() {
            ObjectKind::Node
        } else if name == "PipeWire:Interface:Port".to_owned() {
            ObjectKind::Port
        } else if name == "PipeWire:Interface:Link".to_owned() {
            ObjectKind::Link
        } else if name == "PipeWire:Interface:Metadata".to_owned() {
            ObjectKind::Metadata
        } else if name == "PipeWire:Interface:Module".to_owned() {
            ObjectKind::Module
        } else if name == "PipeWire:Interface:Device".to_owned() {
            ObjectKind::Device
        } else if name == "PipeWire:Interface:Factory".to_owned() {
            ObjectKind::Factory
        } else if name == "PipeWire:Interface:Client".to_owned() {
            ObjectKind::Client
        } else {
            ObjectKind::Other
        }
    }

    /// Classifies the kind of an object that has just appeared.
    #[verifier::when_used_as_spec(spec_handling)]
    pub fn handling(self) -> (h: Handling)
        ensures
            h == self.spec_handling(),
    {
        match self {
            ObjectKind::Node => Handling::Bind(ProxyKind::Node),
            ObjectKind::Port => Handling::Bind(ProxyKind::Port),
            ObjectKind::Link => Handling::Bind(ProxyKind::Link),
            ObjectKind::Metadata => Handling::Bind(ProxyKind::Metadata),
            ObjectKind::Module => Handling::Reserved,
            ObjectKind::Device => Handling::Reserved,
            ObjectKind::Factory => Handling::Reserved,
            ObjectKind::Client => Handling::Reserved,
            ObjectKind::Other => Handling::Unrecognized,
        }
    }
}

impl ProxyKind {
    /// The object kind that a proxy of this kind stands for.
    pub open spec fn spec_object_kind(self) -> ObjectKind {
        match self {
            ProxyKind::Node => ObjectKind::Node,
            ProxyKind::Port => ObjectKind::Port,
            ProxyKind::Link => ObjectKind::Link,
            ProxyKind::Metadata => ObjectKind::Metadata,
        }
    }

    /// The object kind that a proxy of this kind stands for.
    #[verifier::when_used_as_spec(spec_object_kind)]
    pub fn object_kind(self) -> (kind: ObjectKind)
        ensures
            kind == self.spec_object_kind(),
    {
        match self {
            ProxyKind::Node => ObjectKind::Node,
            ProxyKind::Port => ObjectKind::Port,
            ProxyKind::Link => ObjectKind::Link,
            ProxyKind::Metadata => ObjectKind::Metadata,
        }
    }

    /// The events listened for on a proxy of each kind.
    ///
    /// Nodes and ports report info and parameters, links report info,
    /// metadata reports property changes; every proxy reports its removal.
    pub open spec fn spec_subscriptions(self) -> Subscriptions {
        Subscriptions {
            info: self != ProxyKind::Metadata,
            param: self == ProxyKind::Node || self == ProxyKind::Port,
            property: self == ProxyKind::Metadata,
            removed: true,
        }
    }

    /// The events to listen for on a proxy of this kind.
    #[verifier::when_used_as_spec(spec_subscriptions)]
    pub fn subscriptions(self) -> (subs: Subscriptions)
        ensures
            subs == self.spec_subscriptions(),
    {
        match self {
            ProxyKind::Node => Subscriptions {
                info: true,
                param: true,
                property: false,
                removed: true,
            },
            ProxyKind::Port => Subscriptions {
                info: true,
                param: true,
                property: false,
                removed: true,
            },
            ProxyKind::Link => Subscriptions {
                info: true,
                param: false,
                property: false,
                removed: true,
            },
            ProxyKind::Metadata => Subscriptions {
                info: false,
                param: false,
                property: true,
                removed: true,
            },
        }
    }
}

/// A proxy of some kind is bound exactly to the objects of the kind it
/// stands for, and whatever the kind, the removal of the proxy is among the
/// events listened for.
pub proof fn law_proxy_kinds_are_bound(kind: ProxyKind)
    ensures
        kind.spec_object_kind().spec_handling() == Handling::Bind(kind),
        kind.spec_subscriptions().removed,
{
}

/// A snapshot of a remote object at the moment the registry announces it.
///
/// The snapshot is never updated: what changes on the live object arrives
/// as events of its proxy.
#[derive(Debug)]
pub struct ObjectDescriptor {
    id: u32,
    kind: ObjectKind,
    props: Vec<(String, String)>,
}

impl ObjectDescriptor {
    /// The id that the remote side gave the object.
    pub closed spec fn spec_id(&self) -> u32 {
        self.id
    }

    /// The kind of the object.
    pub closed spec fn spec_kind(&self) -> ObjectKind {
        self.kind
    }

    /// The properties of the object, key and value, in the order given.
    pub closed spec fn spec_props(&self) -> Seq<(String, String)> {
        self.props@
    }

    /// A descriptor of the object `id` of kind `kind` with properties `props`.
    pub fn new(id: u32, kind: ObjectKind, props: Vec<(String, String)>) -> (desc: Self)
        ensures
            desc.spec_id() == id,
            desc.spec_kind() == kind,
            desc.spec_props() == props@,
    {
        ObjectDescriptor { id, kind, props }
    }

    /// The id that the remote side gave the object.
    #[verifier::when_used_as_spec(spec_id)]
    pub fn id(&self) -> (id: u32)
        ensures
            id == self.spec_id(),
    {
        self.id
    }

    /// The kind of the object.
    #[verifier::when_used_as_spec(spec_kind)]
    pub fn kind(&self) -> (kind: ObjectKind)
        ensures
            kind == self.spec_kind(),
    {
        self.kind
    }

    /// The properties of the object.
    pub fn props(&self) -> (props: &Vec<(String, String)>)
        ensures
            props@ == self.spec_props(),
    {
        &self.props
    }
}

} // verus!
