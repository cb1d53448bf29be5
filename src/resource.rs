use vstd::prelude::*;

use crate::component::{kind_name, ComponentKind};

verus! {

/// A live resource handle, tagged by its hardware category.
///
/// `H` is the shared, lock-guarded driver handle that the embedding program
/// supplies; this library only dispatches on the category.
#[derive(Debug, Clone, PartialEq, Eq)]
pub enum Resource<H> {
    Board(H),
    Button(H),
    Camera(H),
    Motor(H),
    Sensor(H),
    MovementSensor(H),
    Encoder(H),
    Base(H),
    PowerSensor(H),
    Servo(H),
    Switch(H),
    Generic(H),
}

/// The resource handle type that collectors bind to.
pub type ResourceType<H> = Resource<H>;

impl<H> Resource<H> {
    pub open spec fn spec_kind(&self) -> ComponentKind {
        match self {
            Resource::Board(_) => ComponentKind::Board,
            Resource::Button(_) => ComponentKind::Button,
            Resource::Camera(_) => ComponentKind::Camera,
            Resource::Motor(_) => ComponentKind::Motor,
            Resource::Sensor(_) => ComponentKind::Sensor,
            Resource::MovementSensor(_) => ComponentKind::MovementSensor,
            Resource::Encoder(_) => ComponentKind::Encoder,
            Resource::Base(_) => ComponentKind::Base,
            Resource::PowerSensor(_) => ComponentKind::PowerSensor,
            Resource::Servo(_) => ComponentKind::Servo,
            Resource::Switch(_) => ComponentKind::Switch,
            Resource::Generic(_) => ComponentKind::Generic,
        }
    }

    /// The category of this resource.
    pub fn kind(&self) -> (r: ComponentKind)
        ensures
            r == self.spec_kind(),
    {
        match self {
            Resource::Board(_) => ComponentKind::Board,
            Resource::Button(_) => ComponentKind::Button,
            Resource::Camera(_) => ComponentKind::Camera,
            Resource::Motor(_) => ComponentKind::Motor,
            Resource::Sensor(_) => ComponentKind::Sensor,
            Resource::MovementSensor(_) => ComponentKind::MovementSensor,
            Resource::Encoder(_) => ComponentKind::Encoder,
            Resource::Base(_) => ComponentKind::Base,
            Resource::PowerSensor(_) => ComponentKind::PowerSensor,
            Resource::Servo(_) => ComponentKind::Servo,
            Resource::Switch(_) => ComponentKind::Switch,
            Resource::Generic(_) => ComponentKind::Generic,
        }
    }

    /// The category identifier of this resource ("board", "motor", ...).
    pub fn component_type(&self) -> (r: String)
        ensures
            r@ == kind_name(self.spec_kind()),
    {
        self.kind().name()
    }

    pub open spec fn spec_handle(&self) -> H {
        match self {
            Resource::Board(h) => *h,
            Resource::Button(h) => *h,
            Resource::Camera(h) => *h,
            Resource::Motor(h) => *h,
            Resource::Sensor(h) => *h,
            Resource::MovementSensor(h) => *h,
            Resource::Encoder(h) => *h,
            Resource::Base(h) => *h,
            Resource::PowerSensor(h) => *h,
            Resource::Servo(h) => *h,
            Resource::Switch(h) => *h,
            Resource::Generic(h) => *h,
        }
    }

    /// The driver handle, whatever the category.
    pub fn handle(&self) -> (r: &H)
        ensures
            *r == self.spec_handle(),
    {
        match self {
            Resource::Board(h) => h,
            Resource::Button(h) => h,
            Resource::Camera(h) => h,
            Resource::Motor(h) => h,
            Resource::Sensor(h) => h,
            Resource::MovementSensor(h) => h,
            Resource::Encoder(h) => h,
            Resource::Base(h) => h,
            Resource::PowerSensor(h) => h,
            Resource::Servo(h) => h,
            Resource::Switch(h) => h,
            Resource::Generic(h) => h,
        }
    }
}

} // verus!
