use micro_rdk::component::ComponentKind;
use micro_rdk::registry::{
    get_board_from_dependencies, ComponentRegistry, Dependency, RegistryError, ResourceKey,
    ResourceName,
};
use micro_rdk::resource::Resource;

type Ctor = fn() -> Result<u32, String>;
type Resolver = fn() -> Vec<ResourceKey>;

fn fake_motor() -> Result<u32, String> {
    Ok(1)
}

fn fake_board() -> Result<u32, String> {
    Ok(2)
}

fn unimplemented_motor() -> Result<u32, String> {
    Err("unimplemented: ".to_string())
}

fn unsupported_board() -> Result<u32, String> {
    Err("method:  not supported".to_string())
}

fn no_dependencies() -> Vec<ResourceKey> {
    Vec::new()
}

fn one_board() -> Vec<ResourceKey> {
    vec![ResourceKey::new("board".to_string(), "b".to_string())]
}

fn wire(subtype: &str, name: &str) -> ResourceName {
    ResourceName {
        namespace: "rdk".to_string(),
        subtype: subtype.to_string(),
        name: name.to_string(),
    }
}

#[test]
fn test_registry() {
    let mut registry: ComponentRegistry<Ctor, Resolver> = ComponentRegistry::new();

    let ctor = registry.get_motor_constructor("fake");
    assert!(ctor.is_err());
    assert_eq!(
        ctor.err().unwrap(),
        RegistryError::ModelNotFound("fake".into())
    );
    assert!(registry.register_motor("fake", fake_motor).is_ok());

    let ctor = registry.get_motor_constructor("fake");
    assert!(ctor.is_ok());

    let ret = registry.register_motor("fake", unimplemented_motor);
    assert!(ret.is_err());
    assert_eq!(
        ret.err().unwrap(),
        RegistryError::ModelAlreadyRegistered("fake".into())
    );

    let ret = registry.register_motor("fake2", unimplemented_motor);
    assert!(ret.is_ok());

    let ctor = registry.get_board_constructor("fake");
    assert!(ctor.is_err());
    assert_eq!(
        ctor.err().unwrap(),
        RegistryError::ModelNotFound("fake".into())
    );
    assert!(registry.register_board("fake", fake_board).is_ok());

    let ctor = registry.get_board_constructor("fake");
    assert!(ctor.is_ok());

    let ret = registry.register_board("fake", unsupported_board);
    assert!(ret.is_err());
    assert_eq!(
        ret.err().unwrap(),
        RegistryError::ModelAlreadyRegistered("fake".into())
    );

    let ret = registry.register_board("fake2", unsupported_board);
    assert!(ret.is_ok());

    let ctor = registry.get_motor_constructor("fake2");
    assert!(ctor.is_ok());
    let ret = ctor.unwrap()();
    assert!(ret.is_err());
    assert_eq!(ret.err().unwrap(), "unimplemented: ");

    let ctor = registry.get_board_constructor("fake2");
    assert!(ctor.is_ok());
    let ret = ctor.unwrap()();
    assert!(ret.is_err());
    assert_eq!(ret.err().unwrap(), "method:  not supported");
}

#[test]
fn registering_twice_is_refused_in_every_category() {
    let mut registry: ComponentRegistry<Ctor, Resolver> = ComponentRegistry::new();
    let kinds = [
        ComponentKind::Board,
        ComponentKind::Button,
        ComponentKind::Camera,
        ComponentKind::Motor,
        ComponentKind::Sensor,
        ComponentKind::MovementSensor,
        ComponentKind::Encoder,
        ComponentKind::Base,
        ComponentKind::PowerSensor,
        ComponentKind::Servo,
        ComponentKind::Switch,
        ComponentKind::Generic,
    ];
    for k in kinds {
        assert_eq!(registry.register(k, "m", fake_motor), Ok(()));
        assert_eq!(
            registry.register(k, "m", fake_board),
            Err(RegistryError::ModelAlreadyRegistered("m".to_string()))
        );
        assert_eq!(registry.register(k, "other", fake_board), Ok(()));
        // the first registration stands
        assert_eq!((registry.get_constructor(k, "m").unwrap())(), Ok(1));
        assert_eq!((registry.get_constructor(k, "other").unwrap())(), Ok(2));
    }
}

#[test]
fn categories_are_separate() {
    let mut registry: ComponentRegistry<Ctor, Resolver> = ComponentRegistry::new();
    assert!(registry.register_sensor("shared", fake_motor).is_ok());
    assert!(registry.register_servo("shared", fake_board).is_ok());
    assert!(registry.register_button("b", fake_motor).is_ok());
    assert!(registry.register_camera("c", fake_motor).is_ok());
    assert!(registry.register_movement_sensor("ms", fake_motor).is_ok());
    assert!(registry.register_encoder("e", fake_motor).is_ok());
    assert!(registry.register_base("ba", fake_motor).is_ok());
    assert!(registry.register_power_sensor("p", fake_motor).is_ok());
    assert!(registry.register_switch("s", fake_motor).is_ok());
    assert!(registry.register_generic_component("g", fake_motor).is_ok());
    assert_eq!((registry.get_sensor_constructor("shared").unwrap())(), Ok(1));
    assert_eq!((registry.get_servo_constructor("shared").unwrap())(), Ok(2));
    assert!(registry.get_button_constructor("b").is_ok());
    assert!(registry.get_camera_constructor("c").is_ok());
    assert!(registry.get_movement_sensor_constructor("ms").is_ok());
    assert!(registry.get_encoder_constructor("e").is_ok());
    assert!(registry.get_base_constructor("ba").is_ok());
    assert!(registry.get_power_sensor_constructor("p").is_ok());
    assert!(registry.get_switch_constructor("s").is_ok());
    assert!(registry.get_generic_component_constructor("g").is_ok());
    assert_eq!(
        registry.get_motor_constructor("shared").err(),
        Some(RegistryError::ModelNotFound("shared".to_string()))
    );
}

#[test]
fn dependency_getters() {
    let mut registry: ComponentRegistry<Ctor, Resolver> = ComponentRegistry::new();
    assert_eq!(
        registry.register_dependency_getter("board", "fake", no_dependencies),
        Err(RegistryError::ComponentTypeNotInDependencies("board".to_string()))
    );
    assert_eq!(
        registry.register_dependency_getter("arm", "fake", no_dependencies),
        Err(RegistryError::ComponentTypeNotInDependencies("arm".to_string()))
    );
    assert_eq!(
        registry.register_dependency_getter("motor", "gpio", one_board),
        Ok(())
    );
    assert_eq!(
        registry.register_dependency_getter("motor", "gpio", no_dependencies),
        Err(RegistryError::ModelDependencyFuncRegistered("gpio".to_string()))
    );
    assert_eq!(
        registry.register_dependency_getter("servo", "gpio", no_dependencies),
        Ok(())
    );
    let getter = registry.get_dependency_function("motor", "gpio").unwrap();
    assert_eq!(getter().len(), 1);
    let getter = registry.get_dependency_function("servo", "gpio").unwrap();
    assert_eq!(getter().len(), 0);
    assert_eq!(
        registry.get_dependency_function("sensor", "gpio").err(),
        Some(RegistryError::ModelNotFoundInDependencies(
            "gpio".to_string(),
            "sensor".to_string()
        ))
    );
    assert_eq!(
        registry.get_dependency_function("switch", "gpio").err(),
        Some(RegistryError::ComponentTypeNotInDependencies(
            "switch".to_string()
        ))
    );
    for t in [
        "motor",
        "movement_sensor",
        "encoder",
        "sensor",
        "base",
        "camera",
        "servo",
        "power_sensor",
        "generic",
    ] {
        assert_eq!(registry.register_dependency_getter(t, "x", no_dependencies), Ok(()));
    }
    for t in ["board", "button", "switch"] {
        assert_eq!(
            registry.register_dependency_getter(t, "x", no_dependencies),
            Err(RegistryError::ComponentTypeNotInDependencies(t.to_string()))
        );
    }
}

#[test]
fn resource_key_from_wire_names() {
    let known = [
        ("button", "button"),
        ("motor", "motor"),
        ("sensor", "sensor"),
        ("camera", "camera"),
        ("movement_sensor", "movement_sensor"),
        ("encoder", "encoder"),
        ("base", "base"),
        ("servo", "servo"),
        ("switch", "switch"),
        ("power_sensor", "power_sensor"),
        ("generic", "generic"),
    ];
    for (subtype, category) in known {
        let key = ResourceKey::try_from(wire(subtype, "left")).unwrap();
        assert_eq!(key, ResourceKey(category.to_string(), "left".to_string()));
    }
    for subtype in ["board", "arm", "", "Motor", "motors"] {
        assert_eq!(
            ResourceKey::try_from(wire(subtype, "x")),
            Err(RegistryError::ModelNotFound(subtype.to_string()))
        );
    }
}

#[test]
fn board_from_dependencies() {
    let key = |t: &str, n: &str| ResourceKey::new(t.to_string(), n.to_string());
    let deps = vec![
        Dependency(key("motor", "m"), Resource::Motor(1u8)),
        Dependency(key("board", "b1"), Resource::Board(2u8)),
        Dependency(key("board", "b2"), Resource::Board(3u8)),
    ];
    assert_eq!(get_board_from_dependencies(deps), Some(2u8));
    let deps = vec![
        Dependency(key("motor", "m"), Resource::Motor(1u8)),
        Dependency(key("sensor", "s"), Resource::Sensor(4u8)),
    ];
    assert_eq!(get_board_from_dependencies(deps), None);
    assert_eq!(get_board_from_dependencies::<u8>(Vec::new()), None);
}

#[test]
fn component_names() {
    assert_eq!(ComponentKind::MovementSensor.name(), "movement_sensor");
    assert_eq!(ComponentKind::from_name("power_sensor"), Some(ComponentKind::PowerSensor));
    assert_eq!(ComponentKind::from_name("arm"), None);
    assert_eq!(Resource::Servo(()).component_type(), "servo");
    assert_eq!(Resource::Generic(()).kind(), ComponentKind::Generic);
    assert_eq!(*Resource::Encoder(7u8).handle(), 7u8);
}

#[test]
fn registry_from_ordered_list() {
    let models: Vec<(ComponentKind, String, Ctor)> = vec![
        (ComponentKind::Board, "fake".to_string(), fake_board),
        (ComponentKind::Motor, "fake".to_string(), fake_motor),
        (ComponentKind::Motor, "fake".to_string(), unimplemented_motor),
        (ComponentKind::Motor, "gpio".to_string(), unimplemented_motor),
    ];
    let (registry, refused): (ComponentRegistry<Ctor, Resolver>, usize) =
        ComponentRegistry::with_models(models);
    assert_eq!(refused, 1);
    assert_eq!((registry.get_board_constructor("fake").unwrap())(), Ok(2));
    assert_eq!((registry.get_motor_constructor("fake").unwrap())(), Ok(1));
    assert!((registry.get_motor_constructor("gpio").unwrap())().is_err());
    assert!(registry.get_sensor_constructor("fake").is_err());
}
