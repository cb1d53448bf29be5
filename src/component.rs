use vstd::prelude::*;

verus! {

/// The hardware categories a resource can belong to.
#[derive(Debug, Clone, Copy, PartialEq, Eq, Structural)]
pub enum ComponentKind {
    Board,
    Button,
    Camera,
    Motor,
    Sensor,
    MovementSensor,
    Encoder,
    Base,
    PowerSensor,
    Servo,
    Switch,
    Generic,
}

/// The fixed identifier of each category.
pub open spec fn kind_name(k: ComponentKind) -> Seq<char> {
    match k {
        ComponentKind::Board => "board"@,
        ComponentKind::Button => "button"@,
        ComponentKind::Camera => "camera"@,
        ComponentKind::Motor => "motor"@,
        ComponentKind::Sensor => "sensor"@,
        ComponentKind::MovementSensor => "movement_sensor"@,
        ComponentKind::Encoder => "encoder"@,
        ComponentKind::Base => "base"@,
        ComponentKind::PowerSensor => "power_sensor"@,
        ComponentKind::Servo => "servo"@,
        ComponentKind::Switch => "switch"@,
        ComponentKind::Generic => "generic"@,
    }
}

/// The category whose identifier is `s`, if any.
pub open spec fn kind_named(s: Seq<char>) -> Option<ComponentKind> {
    if s == "board"@ {
        Some(ComponentKind::Board)
    } else if s == "button"@ {
        Some(ComponentKind::Button)
    } else if s == "camera"@ {
        Some(ComponentKind::Camera)
    } else if s == "motor"@ {
        Some(ComponentKind::Motor)
    } else if s == "sensor"@ {
        Some(ComponentKind::Sensor)
    } else if s == "movement_sensor"@ {
        Some(ComponentKind::MovementSensor)
    } else if s == "encoder"@ {
        Some(ComponentKind::Encoder)
    } else if s == "base"@ {
        Some(ComponentKind::Base)
    } else if s == "power_sensor"@ {
        Some(ComponentKind::PowerSensor)
    } else if s == "servo"@ {
        Some(ComponentKind::Servo)
    } else if s == "switch"@ {
        Some(ComponentKind::Switch)
    } else if s == "generic"@ {
        Some(ComponentKind::Generic)
    } else {
        None
    }
}

/// The position of each category in per-category tables.
pub open spec fn kind_index(k: ComponentKind) -> int {
    match k {
        ComponentKind::Board => 0,
        ComponentKind::Button => 1,
        ComponentKind::Camera => 2,
        ComponentKind::Motor => 3,
        ComponentKind::Sensor => 4,
        ComponentKind::MovementSensor => 5,
        ComponentKind::Encoder => 6,
        ComponentKind::Base => 7,
        ComponentKind::PowerSensor => 8,
        ComponentKind::Servo => 9,
        ComponentKind::Switch => 10,
        ComponentKind::Generic => 11,
    }
}

/// The number of categories.
pub const KIND_COUNT: usize = 12;

impl ComponentKind {
    /// The category whose identifier is `s`, if any.
    pub fn from_name(s: &str) -> (r: Option<ComponentKind>)
        ensures
            r == kind_named(s@),
    {
        let s = s.to_string();
        if s == "board".to_string() {
            Some(ComponentKind::Board)
        } else if s == "button".to_string() {
            Some(ComponentKind::Button)
        } else if s == "camera".to_string() {
            Some(ComponentKind::Camera)
        } else if s == "motor".to_string() {
            Some(ComponentKind::Motor)
        } else if s == "sensor".to_string() {
            Some(ComponentKind::Sensor)
        } else if s == "movement_sensor".to_string() {
            Some(ComponentKind::MovementSensor)
        } else if s == "encoder".to_string() {
            Some(ComponentKind::Encoder)
        } else if s == "base".to_string() {
            Some(ComponentKind::Base)
        } else if s == "power_sensor".to_string() {
            Some(ComponentKind::PowerSensor)
        } else if s == "servo".to_string() {
            Some(ComponentKind::Servo)
        } else if s == "switch".to_string() {
            Some(ComponentKind::Switch)
        } else if s == "generic".to_string() {
            Some(ComponentKind::Generic)
        } else {
            None
        }
    }

    /// The position of this category in per-category tables.
    pub fn index(&self) -> (r: usize)
        ensures
            r as int == kind_index(*self),
            r < KIND_COUNT,
    {
        match self {
            ComponentKind::Board => 0,
            ComponentKind::Button => 1,
            ComponentKind::Camera => 2,
            ComponentKind::Motor => 3,
            ComponentKind::Sensor => 4,
            ComponentKind::MovementSensor => 5,
            ComponentKind::Encoder => 6,
            ComponentKind::Base => 7,
            ComponentKind::PowerSensor => 8,
            ComponentKind::Servo => 9,
            ComponentKind::Switch => 10,
            ComponentKind::Generic => 11,
        }
    }

    /// The category's identifier, as used in resource keys.
    pub fn name(&self) -> (r: String)
        ensures
            r@ == kind_name(*self),
    {
        match self {
            ComponentKind::Board => "board".to_string(),
            ComponentKind::Button => "button".to_string(),
            ComponentKind::Camera => "camera".to_string(),
            ComponentKind::Motor => "motor".to_string(),
            ComponentKind::Sensor => "sensor".to_string(),
            ComponentKind::MovementSensor => "movement_sensor".to_string(),
            ComponentKind::Encoder => "encoder".to_string(),
            ComponentKind::Base => "base".to_string(),
            ComponentKind::PowerSensor => "power_sensor".to_string(),
            ComponentKind::Servo => "servo".to_string(),
            ComponentKind::Switch => "switch".to_string(),
            ComponentKind::Generic => "generic".to_string(),
        }
    }
}

} // verus!
