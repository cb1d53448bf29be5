use vstd::prelude::*;
use vstd::string::*;

use crate::attributes::{field_of, spec_get, whole_part_i32, AttributeError, Decimal, Kind};
use crate::component::{kind_name, ComponentKind};
use crate::resource::Resource;

verus! {

/// The capacity, in thousandths of a kilobyte, that a collector's cache gets
/// when its configuration names none.
pub const DEFAULT_CACHE_SIZE_THOUSANDTHS_KB: i64 = 8000;

/// A capability-bound operation that a collector performs on its resource.
#[derive(Debug, Clone, PartialEq, Eq, Hash)]
pub enum CollectionMethod {
    Readings,
    AngularVelocity,
    LinearAcceleration,
    LinearVelocity,
    Position,
    CompassHeading,
    /// Reads the analog reader with this name.
    Analogs(String),
    /// Reads the level of this GPIO pin.
    Gpios(i32),
    TicksCount,
}

/// A collection method as a mathematical value.
pub enum MethodView {
    Readings,
    AngularVelocity,
    LinearAcceleration,
    LinearVelocity,
    Position,
    CompassHeading,
    Analogs(Seq<char>),
    Gpios(i32),
    TicksCount,
}

impl View for CollectionMethod {
    type V = MethodView;

    open spec fn view(&self) -> MethodView {
        match self {
            CollectionMethod::Readings => MethodView::Readings,
            CollectionMethod::AngularVelocity => MethodView::AngularVelocity,
            CollectionMethod::LinearAcceleration => MethodView::LinearAcceleration,
            CollectionMethod::LinearVelocity => MethodView::LinearVelocity,
            CollectionMethod::Position => MethodView::Position,
            CollectionMethod::CompassHeading => MethodView::CompassHeading,
            CollectionMethod::Analogs(r) => MethodView::Analogs(r@),
            CollectionMethod::Gpios(p) => MethodView::Gpios(*p),
            CollectionMethod::TicksCount => MethodView::TicksCount,
        }
    }
}

/// The name under which a method is configured and reported.
pub open spec fn method_label(m: MethodView) -> Seq<char> {
    match m {
        MethodView::Readings => "Readings"@,
        MethodView::AngularVelocity => "AngularVelocity"@,
        MethodView::LinearAcceleration => "LinearAcceleration"@,
        MethodView::LinearVelocity => "LinearVelocity"@,
        MethodView::Position => "Position"@,
        MethodView::CompassHeading => "CompassHeading"@,
        MethodView::Analogs(_) => "Analogs"@,
        MethodView::Gpios(_) => "Gpios"@,
        MethodView::TicksCount => "TicksCount"@,
    }
}

/// Whether a resource of category `k` supports method `m`.
pub open spec fn pair_is_valid(k: ComponentKind, m: MethodView) -> bool {
    match k {
        ComponentKind::Board => m is Analogs || m is Gpios,
        ComponentKind::Encoder => m is TicksCount,
        ComponentKind::Motor => m is Position,
        ComponentKind::MovementSensor => m is Readings || m is AngularVelocity
            || m is LinearAcceleration || m is LinearVelocity || m is Position
            || m is CompassHeading,
        ComponentKind::Sensor => m is Readings,
        ComponentKind::Servo => m is Position,
        _ => false,
    }
}

impl CollectionMethod {
    /// An equal method, built anew.
    pub fn duplicate(&self) -> (r: Self)
        ensures
            r@ == self@,
    {
        match self {
            CollectionMethod::Readings => CollectionMethod::Readings,
            CollectionMethod::AngularVelocity => CollectionMethod::AngularVelocity,
            CollectionMethod::LinearAcceleration => CollectionMethod::LinearAcceleration,
            CollectionMethod::LinearVelocity => CollectionMethod::LinearVelocity,
            CollectionMethod::Position => CollectionMethod::Position,
            CollectionMethod::CompassHeading => CollectionMethod::CompassHeading,
            CollectionMethod::Analogs(r) => CollectionMethod::Analogs(r.clone()),
            CollectionMethod::Gpios(p) => CollectionMethod::Gpios(*p),
            CollectionMethod::TicksCount => CollectionMethod::TicksCount,
        }
    }

    /// The method's name in upper camel case, without its parameter.
    pub fn to_string(&self) -> (r: String)
        ensures
            r@ == method_label(self@),
    {
        match self {
            CollectionMethod::Readings => "Readings".to_string(),
            CollectionMethod::AngularVelocity => "AngularVelocity".to_string(),
            CollectionMethod::LinearAcceleration => "LinearAcceleration".to_string(),
            CollectionMethod::LinearVelocity => "LinearVelocity".to_string(),
            CollectionMethod::Position => "Position".to_string(),
            CollectionMethod::CompassHeading => "CompassHeading".to_string(),
            CollectionMethod::Analogs(_) => "Analogs".to_string(),
            CollectionMethod::Gpios(_) => "Gpios".to_string(),
            CollectionMethod::TicksCount => "TicksCount".to_string(),
        }
    }
}

/// Whether a resource of category `k` supports method `m`.
pub fn resource_method_pair_is_valid(k: ComponentKind, m: &CollectionMethod) -> (r: bool)
    ensures
        r == pair_is_valid(k, m@),
{
    match k {
        ComponentKind::Board => matches!(m, CollectionMethod::Analogs(_) | CollectionMethod::Gpios(_)),
        ComponentKind::Encoder => matches!(m, CollectionMethod::TicksCount),
        ComponentKind::Motor => matches!(m, CollectionMethod::Position),
        ComponentKind::MovementSensor => matches!(
            m,
            CollectionMethod::Readings | CollectionMethod::AngularVelocity
                | CollectionMethod::LinearAcceleration | CollectionMethod::LinearVelocity
                | CollectionMethod::Position | CollectionMethod::CompassHeading
        ),
        ComponentKind::Sensor => matches!(m, CollectionMethod::Readings),
        ComponentKind::Servo => matches!(m, CollectionMethod::Position),
        _ => false,
    }
}

/// Identity of one telemetry stream: resource name, category, method.
#[derive(Clone, Debug, PartialEq, Eq, Hash)]
pub struct ResourceMethodKey {
    pub r_name: String,
    pub component_type: String,
    pub method: CollectionMethod,
}

impl ResourceMethodKey {
    /// `ResourceMethodKey (<component type>:<name>, <method>)`.
    pub fn to_string(&self) -> (r: String)
        ensures
            r@ == "ResourceMethodKey ("@ + self.component_type@ + ":"@ + self.r_name@ + ", "@
                + method_label(self.method@) + ")"@,
    {
        let mut s = "ResourceMethodKey (".to_string();
        s.append(self.component_type.as_str());
        s.append(":");
        s.append(self.r_name.as_str());
        s.append(", ");
        s.append(self.method.to_string().as_str());
        s.append(")");
        s
    }
}

/// Failures of building a collector or of one capture.
#[derive(Debug, Clone, PartialEq, Eq)]
pub enum DataCollectionError {
    /// The method does not apply to this resource category.
    UnsupportedMethod(CollectionMethod, String),
    NoSupportedMethods,
    /// A capture frequency of zero.
    UnsupportedCaptureFrequency,
    AnalogCollectionError(String),
    BoardCollectionError(String),
    EncoderCollectionError(String),
    MotorCollectionError(String),
    SensorCollectionError(String),
    ServoCollectionError(String),
}


/// The kind of an attribute failure, with the missing key where there is one.
pub enum AttrFault {
    KeyNotFound(Seq<char>),
    ConversionImpossible,
    Validation,
}

pub open spec fn fault_of(e: AttributeError) -> AttrFault {
    match e {
        AttributeError::KeyNotFound(k) => AttrFault::KeyNotFound(k@),
        AttributeError::ConversionImpossibleError => AttrFault::ConversionImpossible,
        AttributeError::ValidationError(_) => AttrFault::Validation,
    }
}

/// A collector configuration as a mathematical value.
pub struct ConfigView {
    pub method: MethodView,
    pub capture_frequency_hz: Decimal,
    pub capacity: int,
    pub disabled: bool,
}

/// The text of the required field `key`.
pub open spec fn required_text(f: Seq<(String, Kind)>, key: Seq<char>) -> Result<Seq<char>, AttrFault> {
    match field_of(f, key) {
        None => Err(AttrFault::KeyNotFound(key)),
        Some(Kind::StringValue(s)) => Ok(s@),
        Some(_) => Err(AttrFault::ConversionImpossible),
    }
}

/// The number of the required field `key`.
pub open spec fn required_number(f: Seq<(String, Kind)>, key: Seq<char>) -> Result<Decimal, AttrFault> {
    match field_of(f, key) {
        None => Err(AttrFault::KeyNotFound(key)),
        Some(Kind::NumberValue(n)) => Ok(n),
        Some(_) => Err(AttrFault::ConversionImpossible),
    }
}

/// The cache size of a configuration, in thousandths of a kilobyte.
pub open spec fn cache_size(f: Seq<(String, Kind)>) -> Result<int, AttrFault> {
    match field_of(f, "cache_size_kb"@) {
        None => Ok(DEFAULT_CACHE_SIZE_THOUSANDTHS_KB as int),
        Some(Kind::NumberValue(n)) => Ok(n.thousandths as int),
        Some(_) => Err(AttrFault::ConversionImpossible),
    }
}

/// A size in thousandths of a kilobyte as bytes, saturated to `usize`.
pub open spec fn capacity_bytes(thousandths_kb: int) -> int {
    if thousandths_kb < 0 {
        0
    } else if thousandths_kb > usize::MAX {
        usize::MAX as int
    } else {
        thousandths_kb
    }
}

/// The method named `name`, with its parameter taken from `params`.
pub open spec fn method_from(name: Seq<char>, params: Option<Kind>) -> Result<MethodView, AttrFault> {
    if name == "Readings"@ {
        Ok(MethodView::Readings)
    } else if name == "AngularVelocity"@ {
        Ok(MethodView::AngularVelocity)
    } else if name == "LinearAcceleration"@ {
        Ok(MethodView::LinearAcceleration)
    } else if name == "LinearVelocity"@ {
        Ok(MethodView::LinearVelocity)
    } else if name == "Position"@ {
        Ok(MethodView::Position)
    } else if name == "CompassHeading"@ {
        Ok(MethodView::CompassHeading)
    } else if name == "Analogs"@ {
        match params {
            None => Err(AttrFault::KeyNotFound("additional_params"@)),
            Some(p) => match spec_get(p, "reader_name"@) {
                None => Err(AttrFault::ConversionImpossible),
                Some(None) => Err(AttrFault::KeyNotFound("reader_name"@)),
                Some(Some(Kind::StringValue(r))) => Ok(MethodView::Analogs(r@)),
                Some(Some(_)) => Err(AttrFault::ConversionImpossible),
            },
        }
    } else if name == "Gpios"@ {
        match params {
            None => Err(AttrFault::KeyNotFound("additional_params"@)),
            Some(p) => match spec_get(p, "pin_name"@) {
                None => Err(AttrFault::ConversionImpossible),
                Some(None) => Err(AttrFault::KeyNotFound("pin_name"@)),
                Some(Some(Kind::NumberValue(n))) => Ok(MethodView::Gpios(whole_part_i32(n.thousandths as int))),
                Some(Some(_)) => Err(AttrFault::ConversionImpossible),
            },
        }
    } else if name == "TicksCount"@ {
        Ok(MethodView::TicksCount)
    } else {
        Err(AttrFault::ConversionImpossible)
    }
}

/// The collector configuration that the attribute value `v` describes.
pub open spec fn parse_config(v: Kind) -> Result<ConfigView, AttrFault> {
    match v {
        Kind::StructValue(fs) => {
            let f = fs@;
            let disabled = match field_of(f, "disabled"@) {
                Some(Kind::BoolValue(b)) => b,
                _ => false,
            };
            match required_text(f, "method"@) {
                Err(e) => Err(e),
                Ok(name) => match required_number(f, "capture_frequency_hz"@) {
                    Err(e) => Err(e),
                    Ok(hz) => match cache_size(f) {
                        Err(e) => Err(e),
                        Ok(kb) => {
                            let capacity = capacity_bytes(kb);
                            if capacity < 1000 && !disabled {
                                Err(AttrFault::Validation)
                            } else {
                                match method_from(name, field_of(f, "additional_params"@)) {
                                    Err(e) => Err(e),
                                    Ok(m) => Ok(
                                        ConfigView {
                                            method: m,
                                            capture_frequency_hz: hz,
                                            capacity,
                                            disabled,
                                        },
                                    ),
                                }
                            }
                        },
                    },
                },
            }
        },
        _ => Err(AttrFault::ConversionImpossible),
    }
}

/// One entry of a component's list of capture methods.
pub struct DataCollectorConfig {
    pub method: CollectionMethod,
    pub capture_frequency_hz: Decimal,
    /// Cache capacity, in bytes.
    pub capacity: usize,
    pub disabled: bool,
}

impl View for DataCollectorConfig {
    type V = ConfigView;

    open spec fn view(&self) -> ConfigView {
        ConfigView {
            method: self.method@,
            capture_frequency_hz: self.capture_frequency_hz,
            capacity: self.capacity as int,
            disabled: self.disabled,
        }
    }
}

fn missing(key: &str) -> (r: AttributeError)
    ensures
        fault_of(r) == AttrFault::KeyNotFound(key@),
{
    AttributeError::KeyNotFound(key.to_string())
}

fn method_parameters(name: &String, params: Option<&Kind>) -> (r: Result<CollectionMethod, AttributeError>)
    ensures
        match method_from(name@, match params { Some(p) => Some(*p), None => None }) {
            Ok(m) => r matches Ok(c) && c@ == m,
            Err(e) => r matches Err(x) && fault_of(x) == e,
        },
{
    if *name == "Readings".to_string() {
        Ok(CollectionMethod::Readings)
    } else if *name == "AngularVelocity".to_string() {
        Ok(CollectionMethod::AngularVelocity)
    } else if *name == "LinearAcceleration".to_string() {
        Ok(CollectionMethod::LinearAcceleration)
    } else if *name == "LinearVelocity".to_string() {
        Ok(CollectionMethod::LinearVelocity)
    } else if *name == "Position".to_string() {
        Ok(CollectionMethod::Position)
    } else if *name == "CompassHeading".to_string() {
        Ok(CollectionMethod::CompassHeading)
    } else if *name == "Analogs".to_string() {
        let p = match params {
            Some(p) => p,
            None => {
                return Err(missing("additional_params"));
            },
        };
        match p.get("reader_name") {
            Err(e) => Err(e),
            Ok(None) => Err(missing("reader_name")),
            Ok(Some(v)) => match v.to_text() {
                Ok(reader) => Ok(CollectionMethod::Analogs(reader)),
                Err(e) => Err(e),
            },
        }
    } else if *name == "Gpios".to_string() {
        let p = match params {
            Some(p) => p,
            None => {
                return Err(missing("additional_params"));
            },
        };
        match p.get("pin_name") {
            Err(e) => Err(e),
            Ok(None) => Err(missing("pin_name")),
            Ok(Some(v)) => match v.to_i32() {
                Ok(pin) => Ok(CollectionMethod::Gpios(pin)),
                Err(e) => Err(e),
            },
        }
    } else if *name == "TicksCount".to_string() {
        Ok(CollectionMethod::TicksCount)
    } else {
        Err(AttributeError::ConversionImpossibleError)
    }
}

impl DataCollectorConfig {
    /// Reads a collector configuration from its attribute value.
    pub fn try_from(value: &Kind) -> (r: Result<Self, AttributeError>)
        ensures
            match parse_config(*value) {
                Ok(c) => r matches Ok(conf) && conf@ == c,
                Err(e) => r matches Err(x) && fault_of(x) == e,
            },
    {
        let disabled = match value.get("disabled") {
            Ok(Some(Kind::BoolValue(v))) => *v,
            _ => false,
        };
        let method_str = match value.get("method") {
            Err(e) => {
                return Err(e);
            },
            Ok(None) => {
                return Err(missing("method"));
            },
            Ok(Some(v)) => match v.to_text() {
                Ok(t) => t,
                Err(e) => {
                    return Err(e);
                },
            },
        };
        let capture_frequency_hz = match value.get("capture_frequency_hz") {
            Err(e) => {
                return Err(e);
            },
            Ok(None) => {
                return Err(missing("capture_frequency_hz"));
            },
            Ok(Some(v)) => match v.to_number() {
                Ok(n) => n,
                Err(e) => {
                    return Err(e);
                },
            },
        };
        let capacity_kb = match value.get("cache_size_kb") {
            Err(e) => {
                return Err(e);
            },
            Ok(None) => Decimal::from_thousandths(DEFAULT_CACHE_SIZE_THOUSANDTHS_KB),
            Ok(Some(v)) => match v.to_number() {
                Ok(n) => n,
                Err(e) => {
                    return Err(e);
                },
            },
        };
        let t = capacity_kb.thousandths;
        let capacity: usize = if t < 0 {
            0
        } else if t as u64 > usize::MAX as u64 {
            usize::MAX
        } else {
            t as usize
        };
        if capacity < 1000 && !disabled {
            return Err(AttributeError::ValidationError("cache size must be at least 1KB".to_string()));
        }
        let additional_params = match value.get("additional_params") {
            Err(e) => {
                return Err(e);
            },
            Ok(p) => p,
        };
        let method = match method_parameters(&method_str, additional_params) {
            Ok(m) => m,
            Err(e) => {
                return Err(e);
            },
        };
        Ok(DataCollectorConfig { method, capture_frequency_hz, capacity, disabled })
    }
}


/// A point in time relative to the robot's start.
#[derive(Debug, Clone, Copy, PartialEq, Eq, Structural)]
pub struct Timestamp {
    pub seconds: i64,
    pub nanos: i32,
}

impl Timestamp {
    /// The time `secs` seconds and `subsec_nanos` nanoseconds after start;
    /// seconds beyond the range of `i64` saturate.
    pub fn from_elapsed(secs: u64, subsec_nanos: u32) -> (r: Self)
        requires
            subsec_nanos < 1_000_000_000,
        ensures
            r.seconds == if secs > i64::MAX as u64 {
                i64::MAX as int
            } else {
                secs as int
            },
            r.nanos == subsec_nanos,
    {
        let seconds: i64 = if secs > i64::MAX as u64 {
            i64::MAX
        } else {
            secs as i64
        };
        Timestamp { seconds, nanos: subsec_nanos as i32 }
    }
}

/// A structured value in a telemetry payload; `N` is the number type.
#[derive(Debug, PartialEq)]
pub enum Value<N> {
    Null,
    Number(N),
    Bool(bool),
    Text(String),
    Struct(Vec<(String, Value<N>)>),
}

/// A three-component vector reading.
#[derive(Debug, Clone, Copy, PartialEq)]
pub struct Vector3<N> {
    pub x: N,
    pub y: N,
    pub z: N,
}

/// The payload of a telemetry record.
#[derive(Debug, PartialEq)]
pub enum Data<N> {
    Struct(Vec<(String, Value<N>)>),
    Binary(Vec<u8>),
}

#[derive(Debug, Clone, Copy, PartialEq, Eq, Structural)]
pub enum MimeType {
    Unspecified,
}

#[derive(Debug, Clone, Copy, PartialEq, Eq, Structural)]
pub struct SensorMetadata {
    pub time_requested: Timestamp,
    pub time_received: Timestamp,
    pub mime_type: MimeType,
}

/// One telemetry record.
#[derive(Debug, PartialEq)]
pub struct SensorData<N> {
    pub metadata: SensorMetadata,
    pub data: Data<N>,
}

/// The capability call that one capture makes on the resource.
#[derive(Debug, Clone, PartialEq, Eq)]
pub enum CapabilityCall {
    /// All of the resource's readings.
    Readings,
    /// The board's analog reader with this name.
    Analog(String),
    /// The level of the board's GPIO pin.
    GpioLevel(i32),
    EncoderTicks,
    ServoPosition,
    MotorPosition,
    AngularVelocity,
    LinearAcceleration,
    LinearVelocity,
    /// The movement sensor's geographic position.
    GeoPosition,
    CompassHeading,
}

/// What a capability call returned.
pub enum CapabilityReading<N> {
    /// Named values: the readings, an encoder position, a geographic position.
    Fields(Vec<(String, Value<N>)>),
    Number(N),
    Level(bool),
    Vector(Vector3<N>),
}

/// Whether `c` is the call that method `m` makes on a resource of category `k`.
pub open spec fn call_matches(k: ComponentKind, m: MethodView, c: CapabilityCall) -> bool {
    match m {
        MethodView::Readings => c is Readings,
        MethodView::Analogs(name) => c matches CapabilityCall::Analog(n) && n@ == name,
        MethodView::Gpios(pin) => c == CapabilityCall::GpioLevel(pin),
        MethodView::TicksCount => c is EncoderTicks,
        MethodView::Position => match k {
            ComponentKind::Servo => c is ServoPosition,
            ComponentKind::Motor => c is MotorPosition,
            _ => c is GeoPosition,
        },
        MethodView::AngularVelocity => c is AngularVelocity,
        MethodView::LinearAcceleration => c is LinearAcceleration,
        MethodView::LinearVelocity => c is LinearVelocity,
        MethodView::CompassHeading => c is CompassHeading,
    }
}

/// Whether `reading` has the shape that call `c` returns.
pub open spec fn reading_fits<N>(c: CapabilityCall, reading: CapabilityReading<N>) -> bool {
    match c {
        CapabilityCall::Readings | CapabilityCall::EncoderTicks | CapabilityCall::GeoPosition => reading is Fields,
        CapabilityCall::GpioLevel(_) => reading is Level,
        CapabilityCall::AngularVelocity | CapabilityCall::LinearAcceleration
        | CapabilityCall::LinearVelocity => reading is Vector,
        _ => reading is Number,
    }
}

/// The name of the single field that wraps the result of call `c`, where
/// there is one.
pub open spec fn wrapping_field(c: CapabilityCall) -> Seq<char> {
    match c {
        CapabilityCall::Readings => "readings"@,
        CapabilityCall::Analog(_) => "value"@,
        CapabilityCall::GpioLevel(_) => "high"@,
        CapabilityCall::ServoPosition => "position_deg"@,
        CapabilityCall::MotorPosition => "position"@,
        CapabilityCall::AngularVelocity => "angular_velocity"@,
        CapabilityCall::LinearAcceleration => "linear_acceleration"@,
        CapabilityCall::LinearVelocity => "linear_velocity"@,
        CapabilityCall::CompassHeading => "value"@,
        _ => ""@,
    }
}

/// Whether `v` is the structure `{x, y, z}` of `vec`.
pub open spec fn is_vector_struct<N>(v: Value<N>, vec: Vector3<N>) -> bool {
    v matches Value::Struct(f) && f@.len() == 3 && f@[0].0@ == "x"@ && f@[0].1 == Value::Number(vec.x)
        && f@[1].0@ == "y"@ && f@[1].1 == Value::Number(vec.y) && f@[2].0@ == "z"@ && f@[2].1
        == Value::Number(vec.z)
}

/// Whether `data` is the payload for `reading`, returned by call `c`: named
/// values of an encoder or a position stand as they are; any other result
/// stands in one field named for the call.
pub open spec fn payload_for<N>(c: CapabilityCall, reading: CapabilityReading<N>, data: Data<N>) -> bool {
    match reading {
        CapabilityReading::Fields(f) => if c is Readings {
            data matches Data::Struct(d) && d@.len() == 1 && d@[0].0@ == wrapping_field(c) && d@[0].1
                == Value::Struct(f)
        } else {
            data == Data::Struct(f)
        },
        CapabilityReading::Number(n) => data matches Data::Struct(d) && d@.len() == 1 && d@[0].0@
            == wrapping_field(c) && d@[0].1 == Value::Number(n),
        CapabilityReading::Level(b) => data matches Data::Struct(d) && d@.len() == 1 && d@[0].0@
            == wrapping_field(c) && d@[0].1 == Value::<N>::Bool(b),
        CapabilityReading::Vector(v) => data matches Data::Struct(d) && d@.len() == 1 && d@[0].0@
            == wrapping_field(c) && is_vector_struct(d@[0].1, v),
    }
}

fn single_field<N>(name: &str, value: Value<N>) -> (r: Data<N>)
    ensures
        r matches Data::Struct(d) && d@.len() == 1 && d@[0].0@ == name@ && d@[0].1 == value,
{
    let mut fields: Vec<(String, Value<N>)> = Vec::new();
    fields.push((name.to_string(), value));
    Data::Struct(fields)
}

fn vector_struct<N>(v: Vector3<N>) -> (r: Value<N>)
    ensures
        is_vector_struct(r, v),
{
    let mut fields: Vec<(String, Value<N>)> = Vec::new();
    fields.push(("x".to_string(), Value::Number(v.x)));
    fields.push(("y".to_string(), Value::Number(v.y)));
    fields.push(("z".to_string(), Value::Number(v.z)));
    Value::Struct(fields)
}

impl CapabilityCall {
    /// The name of the field that wraps this call's result.
    fn field_name(&self) -> (r: &'static str)
        ensures
            r@ == wrapping_field(*self),
    {
        match self {
            CapabilityCall::Readings => "readings",
            CapabilityCall::Analog(_) => "value",
            CapabilityCall::GpioLevel(_) => "high",
            CapabilityCall::ServoPosition => "position_deg",
            CapabilityCall::MotorPosition => "position",
            CapabilityCall::AngularVelocity => "angular_velocity",
            CapabilityCall::LinearAcceleration => "linear_acceleration",
            CapabilityCall::LinearVelocity => "linear_velocity",
            CapabilityCall::CompassHeading => "value",
            _ => "",
        }
    }
}

/// The interval, in milliseconds, between captures at frequency `hz`: the
/// whole part of `1000 / hz`, and zero for a negative frequency.
pub open spec fn interval_ms(hz: Decimal) -> int {
    if hz.thousandths > 0 {
        1_000_000int / (hz.thousandths as int)
    } else {
        0
    }
}

/// At a positive frequency the interval is the whole part of `1000 / hz`
/// milliseconds: `interval * hz <= 1000 < (interval + 1) * hz`, with `hz`
/// counted in thousandths.
pub proof fn lemma_interval_is_floor(hz: Decimal)
    requires
        hz.thousandths > 0,
    ensures
        interval_ms(hz) * hz.thousandths <= 1_000_000 < (interval_ms(hz) + 1) * hz.thousandths,
{
    let t = hz.thousandths as int;
    let q = 1_000_000int / t;
    vstd::arithmetic::div_mod::lemma_fundamental_div_mod(1_000_000int, t);
    assert(q * t <= 1_000_000 < (q + 1) * t) by (nonlinear_arith)
        requires
            t > 0,
            1_000_000int == t * q + 1_000_000int % t,
            0 <= 1_000_000int % t < t,
    ;
}

/// A cache of under 1000 bytes is refused with a validation error exactly
/// when the collector is not disabled: for the same method, frequency and
/// cache size, a configuration that says `disabled: true` is not refused on
/// that account.
pub proof fn lemma_small_cache_needs_disabled(v: Kind)
    requires
        v is StructValue,
        required_text(v->StructValue_0@, "method"@) is Ok,
        required_number(v->StructValue_0@, "capture_frequency_hz"@) is Ok,
        cache_size(v->StructValue_0@) is Ok,
        capacity_bytes(cache_size(v->StructValue_0@)->Ok_0) < 1000,
    ensures
        field_of(v->StructValue_0@, "disabled"@) != Some(Kind::BoolValue(true)) ==> parse_config(v)
            == Err::<ConfigView, AttrFault>(AttrFault::Validation),
        field_of(v->StructValue_0@, "disabled"@) == Some(Kind::BoolValue(true)) ==> parse_config(v)
            != Err::<ConfigView, AttrFault>(AttrFault::Validation),
        field_of(v->StructValue_0@, "disabled"@) == Some(Kind::BoolValue(true)) && method_from(
            required_text(v->StructValue_0@, "method"@)->Ok_0,
            field_of(v->StructValue_0@, "additional_params"@),
        ) is Ok ==> parse_config(v) is Ok,
{
}

/// A method bound to a resource, with the interval and cache capacity at
/// which its results are kept.
pub struct DataCollector<H> {
    name: String,
    component_type: String,
    resource: Resource<H>,
    method: CollectionMethod,
    time_interval_ms: u64,
    capacity: usize,
}

impl<H> DataCollector<H> {
    pub closed spec fn spec_name(&self) -> Seq<char> {
        self.name@
    }

    pub closed spec fn spec_component_type(&self) -> Seq<char> {
        self.component_type@
    }

    pub closed spec fn spec_resource(&self) -> Resource<H> {
        self.resource
    }

    pub closed spec fn spec_method(&self) -> MethodView {
        self.method@
    }

    pub closed spec fn spec_interval(&self) -> int {
        self.time_interval_ms as int
    }

    pub closed spec fn spec_capacity(&self) -> int {
        self.capacity as int
    }

    #[verifier::type_invariant]
    spec fn inv(&self) -> bool {
        &&& pair_is_valid(self.resource.spec_kind(), self.method@)
        &&& self.component_type@ == kind_name(self.resource.spec_kind())
    }

    /// The method suits the resource, and the category recorded is the
    /// resource's.
    pub open spec fn wf(&self) -> bool {
        &&& pair_is_valid(self.spec_resource().spec_kind(), self.spec_method())
        &&& self.spec_component_type() == kind_name(self.spec_resource().spec_kind())
    }

    /// Binds `method` to `resource`, capturing `capture_frequency_hz` times a
    /// second into a cache of `capacity` bytes.
    pub fn new(
        name: String,
        resource: Resource<H>,
        method: CollectionMethod,
        capture_frequency_hz: Decimal,
        capacity: usize,
    ) -> (r: Result<Self, DataCollectionError>)
        ensures
            capture_frequency_hz.thousandths == 0 ==> r matches Err(
                DataCollectionError::UnsupportedCaptureFrequency,
            ),
            capture_frequency_hz.thousandths != 0 && !pair_is_valid(resource.spec_kind(), method@)
                ==> (r matches Err(DataCollectionError::UnsupportedMethod(m, t)) && m == method
                && t@ == kind_name(resource.spec_kind())),
            capture_frequency_hz.thousandths != 0 && pair_is_valid(resource.spec_kind(), method@)
                ==> (r matches Ok(c) && c.wf() && c.spec_name() == name@ && c.spec_resource()
                == resource && c.spec_method() == method@ && c.spec_interval() == interval_ms(
                capture_frequency_hz,
            ) && c.spec_capacity() == capacity),
    {
        if capture_frequency_hz.thousandths == 0 {
            return Err(DataCollectionError::UnsupportedCaptureFrequency);
        }
        let t = capture_frequency_hz.thousandths;
        let time_interval_ms: u64 = if t > 0 {
            1_000_000u64 / (t as u64)
        } else {
            0
        };
        let component_type = resource.component_type();
        if !resource_method_pair_is_valid(resource.kind(), &method) {
            return Err(DataCollectionError::UnsupportedMethod(method, component_type));
        }
        Ok(DataCollector { name, component_type, resource, method, time_interval_ms, capacity })
    }

    /// A collector as `conf` describes it.
    pub fn from_config(name: String, resource: Resource<H>, conf: &DataCollectorConfig) -> (r: Result<
        Self,
        DataCollectionError,
    >)
        ensures
            conf.capture_frequency_hz.thousandths == 0 ==> r matches Err(
                DataCollectionError::UnsupportedCaptureFrequency,
            ),
            conf.capture_frequency_hz.thousandths != 0 && !pair_is_valid(resource.spec_kind(), conf.method@)
                ==> (r matches Err(DataCollectionError::UnsupportedMethod(m, t)) && m@ == conf.method@
                && t@ == kind_name(resource.spec_kind())),
            conf.capture_frequency_hz.thousandths != 0 && pair_is_valid(resource.spec_kind(), conf.method@)
                ==> (r matches Ok(c) && c.wf() && c.spec_name() == name@ && c.spec_resource()
                == resource && c.spec_method() == conf.method@ && c.spec_interval() == interval_ms(
                conf.capture_frequency_hz,
            ) && c.spec_capacity() == conf.capacity),
    {
        Self::new(name, resource, conf.method.duplicate(), conf.capture_frequency_hz, conf.capacity)
    }

    /// The resource's name.
    pub fn name(&self) -> (r: String)
        ensures
            r@ == self.spec_name(),
    {
        self.name.clone()
    }

    /// The resource's category identifier.
    pub fn component_type(&self) -> (r: String)
        ensures
            r@ == self.spec_component_type(),
    {
        self.component_type.clone()
    }

    /// Milliseconds between two captures.
    pub fn time_interval(&self) -> (r: u64)
        ensures
            r == self.spec_interval(),
    {
        self.time_interval_ms
    }

    /// The method's name.
    pub fn method_str(&self) -> (r: String)
        ensures
            r@ == method_label(self.spec_method()),
    {
        self.method.to_string()
    }

    /// Cache capacity, in bytes.
    pub fn capacity(&self) -> (r: usize)
        ensures
            r == self.spec_capacity(),
    {
        self.capacity
    }

    /// The resource the collector reads.
    pub fn resource(&self) -> (r: &Resource<H>)
        ensures
            *r == self.spec_resource(),
    {
        &self.resource
    }

    /// The method the collector performs.
    pub fn method(&self) -> (r: &CollectionMethod)
        ensures
            r@ == self.spec_method(),
    {
        &self.method
    }

    /// The capability call that a capture makes on the resource.
    pub fn capability_call(&self) -> (r: CapabilityCall)
        ensures
            call_matches(self.spec_resource().spec_kind(), self.spec_method(), r),
    {
        proof {
            use_type_invariant(self);
        }
        match &self.method {
            CollectionMethod::Readings => CapabilityCall::Readings,
            CollectionMethod::Analogs(name) => CapabilityCall::Analog(name.clone()),
            CollectionMethod::Gpios(pin) => CapabilityCall::GpioLevel(*pin),
            CollectionMethod::TicksCount => CapabilityCall::EncoderTicks,
            CollectionMethod::Position => match self.resource {
                Resource::Servo(_) => CapabilityCall::ServoPosition,
                Resource::Motor(_) => CapabilityCall::MotorPosition,
                _ => CapabilityCall::GeoPosition,
            },
            CollectionMethod::AngularVelocity => CapabilityCall::AngularVelocity,
            CollectionMethod::LinearAcceleration => CapabilityCall::LinearAcceleration,
            CollectionMethod::LinearVelocity => CapabilityCall::LinearVelocity,
            CollectionMethod::CompassHeading => CapabilityCall::CompassHeading,
        }
    }

    /// The record of one capture: `outcome` is what the call that
    /// `capability_call` names returned, requested at `time_requested` and
    /// received at `time_received`. A failed call fails the capture with its
    /// error; a result of another shape than the call's is refused.
    pub fn call_method<N>(
        &self,
        time_requested: Timestamp,
        outcome: Result<CapabilityReading<N>, DataCollectionError>,
        time_received: Timestamp,
    ) -> (r: Result<Vec<SensorData<N>>, DataCollectionError>)
        ensures
            match outcome {
                Err(e) => r == Err::<Vec<SensorData<N>>, DataCollectionError>(e),
                Ok(reading) => forall|c: CapabilityCall|
                    call_matches(self.spec_resource().spec_kind(), self.spec_method(), c) ==> if reading_fits(
                        c,
                        reading,
                    ) {
                        r matches Ok(v) && v@.len() == 1 && v@[0].metadata == (SensorMetadata {
                            time_requested,
                            time_received,
                            mime_type: MimeType::Unspecified,
                        }) && payload_for(c, reading, v@[0].data)
                    } else {
                        r matches Err(DataCollectionError::UnsupportedMethod(m, t)) && m@
                            == self.spec_method() && t@ == self.spec_component_type()
                    },
            },
    {
        let reading = match outcome {
            Err(e) => {
                return Err(e);
            },
            Ok(reading) => reading,
        };
        let call = self.capability_call();
        let data = match reading {
            CapabilityReading::Fields(f) => match call {
                CapabilityCall::Readings => single_field(call.field_name(), Value::Struct(f)),
                CapabilityCall::EncoderTicks | CapabilityCall::GeoPosition => Data::Struct(f),
                _ => {
                    return Err(DataCollectionError::UnsupportedMethod(self.method.duplicate(), self.component_type.clone()));
                },
            },
            CapabilityReading::Number(n) => match call {
                CapabilityCall::Analog(_) | CapabilityCall::ServoPosition
                | CapabilityCall::MotorPosition | CapabilityCall::CompassHeading => single_field(
                    call.field_name(),
                    Value::Number(n),
                ),
                _ => {
                    return Err(DataCollectionError::UnsupportedMethod(self.method.duplicate(), self.component_type.clone()));
                },
            },
            CapabilityReading::Level(b) => match call {
                CapabilityCall::GpioLevel(_) => single_field(call.field_name(), Value::Bool(b)),
                _ => {
                    return Err(DataCollectionError::UnsupportedMethod(self.method.duplicate(), self.component_type.clone()));
                },
            },
            CapabilityReading::Vector(v) => match call {
                CapabilityCall::AngularVelocity | CapabilityCall::LinearAcceleration
                | CapabilityCall::LinearVelocity => single_field(call.field_name(), vector_struct(v)),
                _ => {
                    return Err(DataCollectionError::UnsupportedMethod(self.method.duplicate(), self.component_type.clone()));
                },
            },
        };
        let mut records: Vec<SensorData<N>> = Vec::new();
        records.push(
            SensorData {
                metadata: SensorMetadata { time_requested, time_received, mime_type: MimeType::Unspecified },
                data,
            },
        );
        Ok(records)
    }

    /// The identity of the collector's telemetry stream.
    pub fn resource_method_key(&self) -> (r: ResourceMethodKey)
        ensures
            r.r_name@ == self.spec_name(),
            r.component_type@ == self.spec_component_type(),
            r.method@ == self.spec_method(),
    {
        ResourceMethodKey { r_name: self.name(), component_type: self.component_type(), method: self.method.duplicate() }
    }
}

} // verus!
