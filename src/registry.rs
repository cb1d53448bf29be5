use vstd::prelude::*;

use crate::component::{kind_index, kind_name, kind_named, ComponentKind, KIND_COUNT};
use crate::model_table::ModelTable;
use crate::resource::Resource;

verus! {

/// Failures of registration and lookup in the registry.
#[derive(Debug, Clone, PartialEq, Eq)]
pub enum RegistryError {
    /// No constructor for this model, or an unknown wire subtype.
    ModelNotFound(String),
    /// The model already has a constructor in this category.
    ModelAlreadyRegistered(String),
    /// The model already has a dependency resolver in this category.
    ModelDependencyFuncRegistered(String),
    /// The category does not take dependency resolvers.
    ComponentTypeNotInDependencies(String),
    /// No dependency resolver for this model (first) in this category (second).
    ModelNotFoundInDependencies(String, String),
}

/// Identity of a configured resource: its category identifier, then its name.
#[derive(Debug, Clone, PartialEq, Eq, Hash)]
pub struct ResourceKey(pub String, pub String);

/// A resource name as it arrives over the wire.
#[derive(Debug, Clone, PartialEq, Eq)]
pub struct ResourceName {
    pub namespace: String,
    pub subtype: String,
    pub name: String,
}

/// The category identifier that a wire subtype maps to, if it is one of the
/// categories that can be addressed by name.
pub open spec fn subtype_category(subtype: Seq<char>) -> Option<Seq<char>> {
    match kind_named(subtype) {
        Some(k) => if k == ComponentKind::Board {
            None
        } else {
            Some(kind_name(k))
        },
        None => None,
    }
}

impl ResourceKey {
    /// A key for the resource `name` of category `model`.
    pub fn new(model: String, name: String) -> (r: Self)
        ensures
            r.0 == model,
            r.1 == name,
    {
        ResourceKey(model, name)
    }

    /// The key of a resource named on the wire; unknown subtypes are refused.
    pub fn try_from(value: ResourceName) -> (r: Result<Self, RegistryError>)
        ensures
            match subtype_category(value.subtype@) {
                Some(c) => r matches Ok(key) && key.0@ == c && key.1@ == value.name@,
                None => r matches Err(RegistryError::ModelNotFound(s)) && s@ == value.subtype@,
            },
    {
        match ComponentKind::from_name(value.subtype.as_str()) {
            Some(k) => {
                if matches!(k, ComponentKind::Board) {
                    Err(RegistryError::ModelNotFound(value.subtype))
                } else {
                    Ok(ResourceKey(k.name(), value.name))
                }
            },
            None => Err(RegistryError::ModelNotFound(value.subtype)),
        }
    }
}

/// A resolved dependency: the peer's key and its live handle.
pub struct Dependency<H>(pub ResourceKey, pub Resource<H>);

/// The handle of the first board among `deps`, if any.
pub open spec fn first_board<H>(deps: Seq<Dependency<H>>) -> Option<H>
    decreases deps.len(),
{
    if deps.len() == 0 {
        None
    } else {
        match deps[0].1 {
            Resource::Board(b) => Some(b),
            _ => first_board(deps.drop_first()),
        }
    }
}

proof fn lemma_first_board_prefix<H>(deps: Seq<Dependency<H>>, i: int)
    requires
        0 <= i <= deps.len(),
        forall|j: int| 0 <= j < i ==> !(deps[j].1 is Board),
    ensures
        first_board(deps) == first_board(deps.subrange(i, deps.len() as int)),
    decreases i,
{
    if i > 0 {
        assert(!(deps[0].1 is Board));
        assert forall|j: int| 0 <= j < i - 1 implies !(#[trigger] deps.drop_first()[j].1 is Board) by {
            assert(deps.drop_first()[j] == deps[j + 1]);
        }
        assert(deps.drop_first().subrange(i - 1, deps.len() - 1) =~= deps.subrange(i, deps.len() as int));
        lemma_first_board_prefix(deps.drop_first(), i - 1);
    } else {
        assert(deps.subrange(0, deps.len() as int) =~= deps);
    }
}

/// The board handle among `deps`: the first one, if there is any.
pub fn get_board_from_dependencies<H>(deps: Vec<Dependency<H>>) -> (r: Option<H>)
    ensures
        r == first_board(deps@),
{
    let ghost all = deps@;
    let mut list = deps;
    let mut i: usize = 0;
    while i < list.len()
        invariant
            list@ == all,
            all == deps@,
            i <= all.len(),
            forall|j: int| 0 <= j < i ==> !(all[j].1 is Board),
        decreases all.len() - i,
    {
        if matches!(list[i].1, Resource::Board(_)) {
            proof {
                lemma_first_board_prefix(all, i as int);
            }
            assert(all.subrange(i as int, all.len() as int)[0] == all[i as int]);
            let Dependency(_, found) = list.swap_remove(i);
            return match found {
                Resource::Board(b) => {
                    assert(first_board(all.subrange(i as int, all.len() as int)) == Some(b));
                    Some(b)
                },
                _ => None,
            };
        }
        i = i + 1;
    }
    proof {
        lemma_first_board_prefix(all, i as int);
    }
    None
}

/// The categories whose models may declare a dependency resolver.
pub open spec fn takes_dependencies(k: ComponentKind) -> bool {
    match k {
        ComponentKind::Motor | ComponentKind::MovementSensor | ComponentKind::Encoder
        | ComponentKind::Sensor | ComponentKind::Base | ComponentKind::Camera
        | ComponentKind::Servo | ComponentKind::PowerSensor | ComponentKind::Generic => true,
        _ => false,
    }
}

fn kind_takes_dependencies(k: ComponentKind) -> (r: bool)
    ensures
        r == takes_dependencies(k),
{
    match k {
        ComponentKind::Motor | ComponentKind::MovementSensor | ComponentKind::Encoder
        | ComponentKind::Sensor | ComponentKind::Base | ComponentKind::Camera
        | ComponentKind::Servo | ComponentKind::PowerSensor | ComponentKind::Generic => true,
        _ => false,
    }
}

/// Per category, the constructors (`C`) registered under each model name, and,
/// for the categories that take them, the dependency resolvers (`D`).
pub struct ComponentRegistry<C, D> {
    constructors: Vec<ModelTable<C>>,
    dependencies: Vec<ModelTable<D>>,
}

/// The result of claiming the slot `model` in `before`, giving `after`:
/// a taken slot is refused and nothing changes, a free one now holds `value`.
pub open spec fn claim_outcome<V>(
    before: Map<Seq<char>, V>,
    after: Map<Seq<char>, V>,
    model: Seq<char>,
    value: V,
    refused: bool,
) -> bool {
    if before.contains_key(model) {
        refused && after == before
    } else {
        !refused && after == before.insert(model, value)
    }
}

/// The constructors of category `k` after registering `models` in order on an
/// empty registry: the first registration of a name in a category stands,
/// later ones are refused.
pub open spec fn table_after<C>(models: Seq<(ComponentKind, String, C)>, k: ComponentKind) -> Map<
    Seq<char>,
    C,
>
    decreases models.len(),
{
    if models.len() == 0 {
        Map::empty()
    } else {
        let before = table_after(models.drop_last(), k);
        let e = models.last();
        if e.0 == k && !before.contains_key(e.1@) {
            before.insert(e.1@, e.2)
        } else {
            before
        }
    }
}

impl<C, D> ComponentRegistry<C, D> {
    /// The constructors of category `k`, by model name.
    pub closed spec fn models(&self, k: ComponentKind) -> Map<Seq<char>, C> {
        self.constructors@[kind_index(k)].view()
    }

    /// The dependency resolvers of category `k`, by model name.
    pub closed spec fn resolvers(&self, k: ComponentKind) -> Map<Seq<char>, D> {
        self.dependencies@[kind_index(k)].view()
    }

    pub closed spec fn wf(&self) -> bool {
        &&& self.constructors@.len() == KIND_COUNT
        &&& self.dependencies@.len() == KIND_COUNT
        &&& forall|i: int| 0 <= i < KIND_COUNT ==> #[trigger] self.constructors@[i].wf()
        &&& forall|i: int| 0 <= i < KIND_COUNT ==> #[trigger] self.dependencies@[i].wf()
        &&& forall|k: ComponentKind| !takes_dependencies(k) ==> #[trigger] self.resolvers(k)
            == Map::<Seq<char>, D>::empty()
    }

    /// A registry with no models in any category.
    pub fn new() -> (r: Self)
        ensures
            r.wf(),
            forall|k: ComponentKind| #[trigger] r.models(k) == Map::<Seq<char>, C>::empty(),
            forall|k: ComponentKind| #[trigger] r.resolvers(k) == Map::<Seq<char>, D>::empty(),
    {
        let mut constructors: Vec<ModelTable<C>> = Vec::new();
        let mut dependencies: Vec<ModelTable<D>> = Vec::new();
        let mut i: usize = 0;
        while i < KIND_COUNT
            invariant
                i <= KIND_COUNT,
                constructors@.len() == i,
                dependencies@.len() == i,
                forall|j: int| 0 <= j < i ==> (#[trigger] constructors@[j]).wf()
                    && constructors@[j].view() == Map::<Seq<char>, C>::empty(),
                forall|j: int| 0 <= j < i ==> (#[trigger] dependencies@[j]).wf()
                    && dependencies@[j].view() == Map::<Seq<char>, D>::empty(),
            decreases KIND_COUNT - i,
        {
            constructors.push(ModelTable::new());
            dependencies.push(ModelTable::new());
            i = i + 1;
        }
        let r = ComponentRegistry { constructors, dependencies };
        assert forall|k: ComponentKind| #[trigger] r.models(k) == Map::<Seq<char>, C>::empty() by {
            assert(r.constructors@[kind_index(k)].view() == Map::<Seq<char>, C>::empty());
        }
        assert forall|k: ComponentKind| #[trigger] r.resolvers(k) == Map::<Seq<char>, D>::empty() by {
            assert(r.dependencies@[kind_index(k)].view() == Map::<Seq<char>, D>::empty());
        }
        r
    }

    /// What registering `constructor` under `model` in category `kind` does,
    /// from `self` to `after`, with outcome `r`.
    pub open spec fn registration(
        &self,
        after: Self,
        kind: ComponentKind,
        model: Seq<char>,
        constructor: C,
        r: Result<(), RegistryError>,
    ) -> bool {
        &&& after.wf()
        &&& forall|k: ComponentKind| k != kind ==> #[trigger] after.models(k) == self.models(k)
        &&& forall|k: ComponentKind| #[trigger] after.resolvers(k) == self.resolvers(k)
        &&& claim_outcome(self.models(kind), after.models(kind), model, constructor, r is Err)
        &&& r is Err ==> (r matches Err(RegistryError::ModelAlreadyRegistered(m)) && m@ == model)
    }

    /// What looking up `model` in category `kind` returns.
    pub open spec fn lookup(&self, kind: ComponentKind, model: Seq<char>, r: Result<&C, RegistryError>) -> bool {
        if self.models(kind).contains_key(model) {
            r matches Ok(c) && *c == self.models(kind)[model]
        } else {
            r matches Err(RegistryError::ModelNotFound(m)) && m@ == model
        }
    }

    /// A registry populated by registering `models` in order, as a program
    /// does at startup with its list of built-in models; the number of
    /// registrations refused as duplicates comes with it.
    pub fn with_models(models: Vec<(ComponentKind, String, C)>) -> (r: (Self, usize))
        ensures
            r.0.wf(),
            forall|k: ComponentKind| #[trigger] r.0.models(k) == table_after(models@, k),
            forall|k: ComponentKind| #[trigger] r.0.resolvers(k) == Map::<Seq<char>, D>::empty(),
            r.1 <= models@.len(),
    {
        let ghost all = models@;
        let mut rest = models;
        let n = rest.len();
        let mut registry = Self::new();
        let mut refused: usize = 0;
        let mut i: usize = 0;
        while rest.len() > 0
            invariant
                all == models@,
                all.len() == n,
                i <= all.len(),
                rest@ == all.subrange(i as int, all.len() as int),
                registry.wf(),
                refused <= i,
                forall|k: ComponentKind| #[trigger] registry.models(k) == table_after(all.take(i as int), k),
                forall|k: ComponentKind| #[trigger] registry.resolvers(k) == Map::<Seq<char>, D>::empty(),
            decreases rest@.len(),
        {
            assert(rest@.len() == all.len() - i);
            let (kind, model, constructor) = rest.remove(0);
            assert(all[i as int] == (kind, model, constructor));
            let ghost before = registry;
            let r = registry.register(kind, model.as_str(), constructor);
            if r.is_err() {
                refused = refused + 1;
            }
            proof {
                let next = all.take(i + 1);
                assert(next.drop_last() =~= all.take(i as int));
                assert(next.last() == all[i as int]);
                assert forall|k: ComponentKind| #[trigger] registry.models(k) == table_after(next, k) by {
                    if k != kind {
                        assert(before.models(k) == table_after(all.take(i as int), k));
                    }
                }
                assert(rest@ =~= all.subrange(i + 1, all.len() as int));
            }
            i = i + 1;
        }
        assert(all.take(i as int) =~= all);
        (registry, refused)
    }

    /// Claims the slot `model` of category `kind` for `constructor`; a model
    /// that already has a constructor there is refused.
    pub fn register(&mut self, kind: ComponentKind, model: &str, constructor: C) -> (r: Result<
        (),
        RegistryError,
    >)
        requires
            old(self).wf(),
        ensures
            old(self).registration(*final(self), kind, model@, constructor, r),
    {
        let model = model.to_string();
        let i = kind.index();
        if self.constructors[i].contains(&model) {
            return Err(RegistryError::ModelAlreadyRegistered(model));
        }
        let ghost before = self.constructors@;
        let mut table = self.constructors.remove(i);
        table.insert_new(model, constructor);
        self.constructors.insert(i, table);
        proof {
            assert(self.constructors@ =~= before.update(i as int, table));
            assert forall|k: ComponentKind| k != kind implies #[trigger] self.models(k) == old(self).models(k) by {
                assert(kind_index(k) != i);
            }
            assert forall|k: ComponentKind| #[trigger] self.resolvers(k) == old(self).resolvers(k) by {}
        }
        Ok(())
    }

    /// The constructor registered under `model` in category `kind`.
    pub fn get_constructor(&self, kind: ComponentKind, model: &str) -> (r: Result<&C, RegistryError>)
        requires
            self.wf(),
        ensures
            self.lookup(kind, model@, r),
    {
        let model = model.to_string();
        let i = kind.index();
        match self.constructors[i].get(&model) {
            Some(c) => Ok(c),
            None => Err(RegistryError::ModelNotFound(model)),
        }
    }

    /// Registers a constructor for a button model.
    pub fn register_button(&mut self, model: &str, constructor: C) -> (r: Result<(), RegistryError>)
        requires
            old(self).wf(),
        ensures
            old(self).registration(*final(self), ComponentKind::Button, model@, constructor, r),
    {
        self.register(ComponentKind::Button, model, constructor)
    }

    /// Registers a constructor for a camera model.
    pub fn register_camera(&mut self, model: &str, constructor: C) -> (r: Result<(), RegistryError>)
        requires
            old(self).wf(),
        ensures
            old(self).registration(*final(self), ComponentKind::Camera, model@, constructor, r),
    {
        self.register(ComponentKind::Camera, model, constructor)
    }

    /// Registers a constructor for a motor model.
    pub fn register_motor(&mut self, model: &str, constructor: C) -> (r: Result<(), RegistryError>)
        requires
            old(self).wf(),
        ensures
            old(self).registration(*final(self), ComponentKind::Motor, model@, constructor, r),
    {
        self.register(ComponentKind::Motor, model, constructor)
    }

    /// Registers a constructor for a sensor model.
    pub fn register_sensor(&mut self, model: &str, constructor: C) -> (r: Result<(), RegistryError>)
        requires
            old(self).wf(),
        ensures
            old(self).registration(*final(self), ComponentKind::Sensor, model@, constructor, r),
    {
        self.register(ComponentKind::Sensor, model, constructor)
    }

    /// Registers a constructor for a movement sensor model.
    pub fn register_movement_sensor(&mut self, model: &str, constructor: C) -> (r: Result<(), RegistryError>)
        requires
            old(self).wf(),
        ensures
            old(self).registration(*final(self), ComponentKind::MovementSensor, model@, constructor, r),
    {
        self.register(ComponentKind::MovementSensor, model, constructor)
    }

    /// Registers a constructor for a board model.
    pub fn register_board(&mut self, model: &str, constructor: C) -> (r: Result<(), RegistryError>)
        requires
            old(self).wf(),
        ensures
            old(self).registration(*final(self), ComponentKind::Board, model@, constructor, r),
    {
        self.register(ComponentKind::Board, model, constructor)
    }

    /// Registers a constructor for a encoder model.
    pub fn register_encoder(&mut self, model: &str, constructor: C) -> (r: Result<(), RegistryError>)
        requires
            old(self).wf(),
        ensures
            old(self).registration(*final(self), ComponentKind::Encoder, model@, constructor, r),
    {
        self.register(ComponentKind::Encoder, model, constructor)
    }

    /// Registers a constructor for a base model.
    pub fn register_base(&mut self, model: &str, constructor: C) -> (r: Result<(), RegistryError>)
        requires
            old(self).wf(),
        ensures
            old(self).registration(*final(self), ComponentKind::Base, model@, constructor, r),
    {
        self.register(ComponentKind::Base, model, constructor)
    }

    /// Registers a constructor for a power sensor model.
    pub fn register_power_sensor(&mut self, model: &str, constructor: C) -> (r: Result<(), RegistryError>)
        requires
            old(self).wf(),
        ensures
            old(self).registration(*final(self), ComponentKind::PowerSensor, model@, constructor, r),
    {
        self.register(ComponentKind::PowerSensor, model, constructor)
    }

    /// Registers a constructor for a servo model.
    pub fn register_servo(&mut self, model: &str, constructor: C) -> (r: Result<(), RegistryError>)
        requires
            old(self).wf(),
        ensures
            old(self).registration(*final(self), ComponentKind::Servo, model@, constructor, r),
    {
        self.register(ComponentKind::Servo, model, constructor)
    }

    /// Registers a constructor for a switch model.
    pub fn register_switch(&mut self, model: &str, constructor: C) -> (r: Result<(), RegistryError>)
        requires
            old(self).wf(),
        ensures
            old(self).registration(*final(self), ComponentKind::Switch, model@, constructor, r),
    {
        self.register(ComponentKind::Switch, model, constructor)
    }

    /// Registers a constructor for a generic component model.
    pub fn register_generic_component(&mut self, model: &str, constructor: C) -> (r: Result<(), RegistryError>)
        requires
            old(self).wf(),
        ensures
            old(self).registration(*final(self), ComponentKind::Generic, model@, constructor, r),
    {
        self.register(ComponentKind::Generic, model, constructor)
    }

    /// The constructor of a button model.
    pub fn get_button_constructor(&self, model: &str) -> (r: Result<&C, RegistryError>)
        requires
            self.wf(),
        ensures
            self.lookup(ComponentKind::Button, model@, r),
    {
        self.get_constructor(ComponentKind::Button, model)
    }

    /// The constructor of a camera model.
    pub fn get_camera_constructor(&self, model: &str) -> (r: Result<&C, RegistryError>)
        requires
            self.wf(),
        ensures
            self.lookup(ComponentKind::Camera, model@, r),
    {
        self.get_constructor(ComponentKind::Camera, model)
    }

    /// The constructor of a motor model.
    pub fn get_motor_constructor(&self, model: &str) -> (r: Result<&C, RegistryError>)
        requires
            self.wf(),
        ensures
            self.lookup(ComponentKind::Motor, model@, r),
    {
        self.get_constructor(ComponentKind::Motor, model)
    }

    /// The constructor of a sensor model.
    pub fn get_sensor_constructor(&self, model: &str) -> (r: Result<&C, RegistryError>)
        requires
            self.wf(),
        ensures
            self.lookup(ComponentKind::Sensor, model@, r),
    {
        self.get_constructor(ComponentKind::Sensor, model)
    }

    /// The constructor of a movement sensor model.
    pub fn get_movement_sensor_constructor(&self, model: &str) -> (r: Result<&C, RegistryError>)
        requires
            self.wf(),
        ensures
            self.lookup(ComponentKind::MovementSensor, model@, r),
    {
        self.get_constructor(ComponentKind::MovementSensor, model)
    }

    /// The constructor of a board model.
    pub fn get_board_constructor(&self, model: &str) -> (r: Result<&C, RegistryError>)
        requires
            self.wf(),
        ensures
            self.lookup(ComponentKind::Board, model@, r),
    {
        self.get_constructor(ComponentKind::Board, model)
    }

    /// The constructor of a encoder model.
    pub fn get_encoder_constructor(&self, model: &str) -> (r: Result<&C, RegistryError>)
        requires
            self.wf(),
        ensures
            self.lookup(ComponentKind::Encoder, model@, r),
    {
        self.get_constructor(ComponentKind::Encoder, model)
    }

    /// The constructor of a base model.
    pub fn get_base_constructor(&self, model: &str) -> (r: Result<&C, RegistryError>)
        requires
            self.wf(),
        ensures
            self.lookup(ComponentKind::Base, model@, r),
    {
        self.get_constructor(ComponentKind::Base, model)
    }

    /// The constructor of a power sensor model.
    pub fn get_power_sensor_constructor(&self, model: &str) -> (r: Result<&C, RegistryError>)
        requires
            self.wf(),
        ensures
            self.lookup(ComponentKind::PowerSensor, model@, r),
    {
        self.get_constructor(ComponentKind::PowerSensor, model)
    }

    /// The constructor of a servo model.
    pub fn get_servo_constructor(&self, model: &str) -> (r: Result<&C, RegistryError>)
        requires
            self.wf(),
        ensures
            self.lookup(ComponentKind::Servo, model@, r),
    {
        self.get_constructor(ComponentKind::Servo, model)
    }

    /// The constructor of a switch model.
    pub fn get_switch_constructor(&self, model: &str) -> (r: Result<&C, RegistryError>)
        requires
            self.wf(),
        ensures
            self.lookup(ComponentKind::Switch, model@, r),
    {
        self.get_constructor(ComponentKind::Switch, model)
    }

    /// The constructor of a generic component model.
    pub fn get_generic_component_constructor(&self, model: &str) -> (r: Result<&C, RegistryError>)
        requires
            self.wf(),
        ensures
            self.lookup(ComponentKind::Generic, model@, r),
    {
        self.get_constructor(ComponentKind::Generic, model)
    }

    /// Registers the dependency resolver of `model` in the category named
    /// `component_type`.
    pub fn register_dependency_getter(&mut self, component_type: &str, model: &str, getter: D) -> (r:
        Result<(), RegistryError>)
        requires
            old(self).wf(),
        ensures
            final(self).wf(),
            forall|k: ComponentKind| #[trigger] final(self).models(k) == old(self).models(k),
            match kind_named(component_type@) {
                Some(kind) if takes_dependencies(kind) => {
                    &&& forall|k: ComponentKind| k != kind ==> #[trigger] final(self).resolvers(k)
                        == old(self).resolvers(k)
                    &&& claim_outcome(
                        old(self).resolvers(kind),
                        final(self).resolvers(kind),
                        model@,
                        getter,
                        r is Err,
                    )
                    &&& r is Err ==> (r matches Err(RegistryError::ModelDependencyFuncRegistered(m))
                        && m@ == model@)
                },
                _ => {
                    &&& *final(self) == *old(self)
                    &&& r matches Err(RegistryError::ComponentTypeNotInDependencies(t))
                    &&& r->Err_0->ComponentTypeNotInDependencies_0@ == component_type@
                },
            },
    {
        let kind = match ComponentKind::from_name(component_type) {
            Some(k) => k,
            None => {
                return Err(RegistryError::ComponentTypeNotInDependencies(component_type.to_string()));
            },
        };
        if !kind_takes_dependencies(kind) {
            return Err(RegistryError::ComponentTypeNotInDependencies(component_type.to_string()));
        }
        let model = model.to_string();
        let i = kind.index();
        if self.dependencies[i].contains(&model) {
            return Err(RegistryError::ModelDependencyFuncRegistered(model));
        }
        let ghost before = self.dependencies@;
        let mut table = self.dependencies.remove(i);
        table.insert_new(model, getter);
        self.dependencies.insert(i, table);
        proof {
            assert(self.dependencies@ =~= before.update(i as int, table));
            assert forall|k: ComponentKind| k != kind implies #[trigger] self.resolvers(k) == old(self).resolvers(k) by {
                assert(kind_index(k) != i);
            }
        }
        Ok(())
    }

    /// The dependency resolver of `model` in the category named `component_type`.
    pub fn get_dependency_function(&self, component_type: &str, model: &str) -> (r: Result<
        &D,
        RegistryError,
    >)
        requires
            self.wf(),
        ensures
            match kind_named(component_type@) {
                Some(kind) if takes_dependencies(kind) => if self.resolvers(kind).contains_key(model@) {
                    r matches Ok(d) && *d == self.resolvers(kind)[model@]
                } else {
                    r matches Err(RegistryError::ModelNotFoundInDependencies(m, t)) && m@ == model@
                        && t@ == component_type@
                },
                _ => r matches Err(RegistryError::ComponentTypeNotInDependencies(t)) && t@
                    == component_type@,
            },
    {
        let kind = match ComponentKind::from_name(component_type) {
            Some(k) => k,
            None => {
                return Err(RegistryError::ComponentTypeNotInDependencies(component_type.to_string()));
            },
        };
        if !kind_takes_dependencies(kind) {
            return Err(RegistryError::ComponentTypeNotInDependencies(component_type.to_string()));
        }
        let model = model.to_string();
        match self.dependencies[kind.index()].get(&model) {
            Some(d) => Ok(d),
            None => Err(RegistryError::ModelNotFoundInDependencies(model, component_type.to_string())),
        }
    }
}

/// Registering a model a second time in the same category is refused with
/// `ModelAlreadyRegistered`, and leaves the registry as the first
/// registration left it.
pub proof fn lemma_register_twice_refused<C, D>(
    r0: ComponentRegistry<C, D>,
    r1: ComponentRegistry<C, D>,
    r2: ComponentRegistry<C, D>,
    kind: ComponentKind,
    model: Seq<char>,
    first: C,
    second: C,
    res1: Result<(), RegistryError>,
    res2: Result<(), RegistryError>,
)
    requires
        r0.registration(r1, kind, model, first, res1),
        r1.registration(r2, kind, model, second, res2),
    ensures
        res2 matches Err(RegistryError::ModelAlreadyRegistered(m)) && m@ == model,
        r2.models(kind) == r1.models(kind),
        r2.models(kind)[model] == r1.models(kind)[model],
{
}

/// Registering two different models, neither yet known, in the same category
/// succeeds both times, and both stand in the registry afterwards.
pub proof fn lemma_register_distinct_accepted<C, D>(
    r0: ComponentRegistry<C, D>,
    r1: ComponentRegistry<C, D>,
    r2: ComponentRegistry<C, D>,
    kind: ComponentKind,
    model1: Seq<char>,
    model2: Seq<char>,
    c1: C,
    c2: C,
    res1: Result<(), RegistryError>,
    res2: Result<(), RegistryError>,
)
    requires
        model1 != model2,
        !r0.models(kind).contains_key(model1),
        !r0.models(kind).contains_key(model2),
        r0.registration(r1, kind, model1, c1, res1),
        r1.registration(r2, kind, model2, c2, res2),
    ensures
        res1 is Ok,
        res2 is Ok,
        r2.models(kind).contains_key(model1) && r2.models(kind)[model1] == c1,
        r2.models(kind).contains_key(model2) && r2.models(kind)[model2] == c2,
{
}

} // verus!
