use vstd::prelude::*;

verus! {

/// Seconds between two invocations of the monitor.
pub const DEFAULT_PERIOD_SECS: u64 = 10;

/// Seconds that the remote configuration fetch may take.
pub const FETCH_TIMEOUT_SECS: u64 = 60;

/// A service declared in the robot configuration.
#[derive(Debug, Clone, PartialEq, Eq)]
pub struct ServiceConfig {
    pub name: String,
    /// The service's model triplet.
    pub model: String,
}

/// The robot configuration, as far as the monitor reads it.
#[derive(Debug, Clone, PartialEq, Eq)]
pub struct RobotConfig {
    pub revision: String,
    pub services: Vec<ServiceConfig>,
}

/// A network the device may join.
#[derive(Debug, Clone, PartialEq, Eq)]
pub struct NetworkSetting {
    pub ssid: String,
    pub password: String,
    pub priority: i32,
}

pub struct NetworkView {
    pub ssid: Seq<char>,
    pub password: Seq<char>,
    pub priority: i32,
}

impl View for NetworkSetting {
    type V = NetworkView;

    open spec fn view(&self) -> NetworkView {
        NetworkView { ssid: self.ssid@, password: self.password@, priority: self.priority }
    }
}

/// The views of a list of network settings.
pub open spec fn networks_view(s: Seq<NetworkSetting>) -> Seq<NetworkView> {
    s.map_values(|n: NetworkSetting| n@)
}

/// Whether the declared networks differ from the stored ones as sets: the
/// counts differ, or a declared network is not stored.
pub open spec fn settings_differ(declared: Seq<NetworkView>, stored: Seq<NetworkView>) -> bool {
    declared.len() != stored.len() || exists|i: int| 0 <= i < declared.len() && !stored.contains(declared[i])
}

/// Networks stored in another order are no difference: where the stored list
/// holds the declared networks, each as often, the two do not differ.
pub proof fn lemma_reordered_networks_same(declared: Seq<NetworkView>, stored: Seq<NetworkView>)
    requires
        declared.to_multiset() == stored.to_multiset(),
    ensures
        !settings_differ(declared, stored),
{
    broadcast use vstd::seq_lib::group_to_multiset_ensures;

    assert(declared.len() == stored.len()) by {
        assert(declared.len() == declared.to_multiset().len());
        assert(stored.len() == stored.to_multiset().len());
    }
    assert forall|i: int| 0 <= i < declared.len() implies stored.contains(#[trigger] declared[i]) by {
        assert(declared.contains(declared[i]));
        assert(declared.to_multiset().count(declared[i]) > 0);
        assert(stored.to_multiset().count(declared[i]) > 0);
    }
}

fn same_network(a: &NetworkSetting, b: &NetworkSetting) -> (r: bool)
    ensures
        r == (a@ == b@),
{
    a.ssid == b.ssid && a.password == b.password && a.priority == b.priority
}

fn stores_network(list: &Vec<NetworkSetting>, n: &NetworkSetting) -> (r: bool)
    ensures
        r == networks_view(list@).contains(n@),
{
    let ghost view = networks_view(list@);
    let mut i: usize = 0;
    while i < list.len()
        invariant
            i <= list@.len(),
            view == networks_view(list@),
            forall|j: int| 0 <= j < i ==> view[j] != n@,
        decreases list@.len() - i,
    {
        if same_network(&list[i], n) {
            assert(view[i as int] == n@);
            return true;
        }
        i = i + 1;
    }
    false
}

/// Whether the declared networks differ from the stored ones, compared as sets.
pub fn network_settings_differ(declared: &Vec<NetworkSetting>, stored: &Vec<NetworkSetting>) -> (r: bool)
    ensures
        r == settings_differ(networks_view(declared@), networks_view(stored@)),
{
    if declared.len() != stored.len() {
        return true;
    }
    let ghost d = networks_view(declared@);
    let ghost s = networks_view(stored@);
    let mut i: usize = 0;
    while i < declared.len()
        invariant
            i <= declared@.len(),
            d == networks_view(declared@),
            s == networks_view(stored@),
            d.len() == s.len(),
            forall|j: int| 0 <= j < i ==> s.contains(#[trigger] d[j]),
        decreases declared@.len() - i,
    {
        if !stores_network(stored, &declared[i]) {
            assert(!s.contains(d[i as int]));
            return true;
        }
        i = i + 1;
    }
    false
}

/// The position of the first service whose model is `model`, if any.
pub open spec fn first_with_model(services: Seq<ServiceConfig>, model: Seq<char>) -> Option<int> {
    if exists|i: int| 0 <= i < services.len() && services[i].model@ == model {
        Some(
            choose|i: int|
                0 <= i < services.len() && services[i].model@ == model && forall|j: int|
                    0 <= j < i ==> services[j].model@ != model,
        )
    } else {
        None
    }
}

proof fn lemma_first_with_model(services: Seq<ServiceConfig>, model: Seq<char>, i: int)
    requires
        0 <= i < services.len(),
        services[i].model@ == model,
        forall|j: int| 0 <= j < i ==> services[j].model@ != model,
    ensures
        first_with_model(services, model) == Some(i),
{
    let k = choose|k: int|
        0 <= k < services.len() && services[k].model@ == model && forall|j: int|
            0 <= j < k ==> services[j].model@ != model;
    assert(k == i) by {
        if k < i {
        } else if k > i {
        }
    }
}

fn find_service(services: &Vec<ServiceConfig>, model: &String) -> (r: Option<usize>)
    ensures
        match r {
            Some(i) => i < services@.len() && first_with_model(services@, model@) == Some(i as int),
            None => first_with_model(services@, model@) is None,
        },
{
    let mut i: usize = 0;
    while i < services.len()
        invariant
            i <= services@.len(),
            forall|j: int| 0 <= j < i ==> services@[j].model@ != model@,
        decreases services@.len() - i,
    {
        if services[i].model == *model {
            proof {
                lemma_first_with_model(services@, model@, i as int);
            }
            return Some(i);
        }
        i = i + 1;
    }
    None
}

/// Failures of a request to the control plane.
#[derive(Debug, Clone, PartialEq, Eq)]
pub enum AppClientError {
    /// The request did not complete in time.
    AppClientRequestTimeout,
    /// The request failed, for the reason given.
    Request(String),
}

/// Where an invocation stands: what it waits for.
#[derive(Debug, Clone, Copy, PartialEq, Eq, Structural)]
pub enum Phase {
    AwaitConfig,
    AwaitUpdate,
    AwaitReset,
    AwaitAgentConfig,
    AwaitStoredNetworks,
    AwaitStore,
    AwaitRestart,
    Finished,
}

/// What the outside world reports back to an invocation.
pub enum MonitorEvent {
    /// The remote configuration arrived; `None` where the response held none.
    ConfigFetched(Option<RobotConfig>),
    ConfigFetchFailed(AppClientError),
    /// The fetch did not complete within the timeout.
    ConfigFetchTimedOut,
    /// The firmware update ran and said whether a reboot is needed; `None`
    /// where the update handler could not be built or failed.
    UpdateFinished(Option<bool>),
    /// Whether clearing the locally cached configuration succeeded.
    ResetFinished(bool),
    /// The networks that the device configuration declares; `None` where it
    /// could not be fetched or read.
    AgentConfigFetched(Option<Vec<NetworkSetting>>),
    /// The networks in storage; `None` where they could not be read.
    StoredNetworksRead(Option<Vec<NetworkSetting>>),
    /// Whether storing the declared networks succeeded.
    NetworksStored(bool),
    /// The restart was signalled.
    Restarted,
}

/// What the outside world is to do next for an invocation.
pub enum MonitorAction {
    /// Fetch the remote configuration, giving up after this many seconds.
    FetchConfig(u64),
    /// Build an update handler from this service and run it.
    RunUpdate(ServiceConfig),
    /// Clear the locally cached configuration.
    ResetConfiguration,
    FetchAgentConfig,
    ReadStoredNetworks,
    StoreNetworks(Vec<NetworkSetting>),
    /// Signal a restart of the machine.
    Restart,
    /// The invocation is over: the seconds until the next one, or the error.
    Finish(Result<u64, AppClientError>),
}

/// One invocation of the monitor in progress.
pub struct Invocation {
    phase: Phase,
    reboot: bool,
    revision_changed: bool,
    declared: Vec<NetworkSetting>,
}

impl Invocation {
    pub closed spec fn phase(&self) -> Phase {
        self.phase
    }

    /// Whether a step so far asks for a restart.
    pub closed spec fn reboot(&self) -> bool {
        self.reboot
    }

    /// Whether the fetched configuration's revision differs from the running one.
    pub closed spec fn revision_changed(&self) -> bool {
        self.revision_changed
    }

    /// The declared networks, once the device configuration has arrived.
    pub closed spec fn declared(&self) -> Seq<NetworkView> {
        networks_view(self.declared@)
    }

    /// Whether `event` answers what the invocation waits for.
    pub open spec fn expects(&self, event: MonitorEvent) -> bool {
        match self.phase() {
            Phase::AwaitConfig => event is ConfigFetched || event is ConfigFetchFailed
                || event is ConfigFetchTimedOut,
            Phase::AwaitUpdate => event is UpdateFinished,
            Phase::AwaitReset => event is ResetFinished,
            Phase::AwaitAgentConfig => event is AgentConfigFetched,
            Phase::AwaitStoredNetworks => event is StoredNetworksRead,
            Phase::AwaitStore => event is NetworksStored,
            Phase::AwaitRestart => event is Restarted,
            Phase::Finished => false,
        }
    }

    /// Whether `event` answers what the invocation waits for.
    pub fn accepts(&self, event: &MonitorEvent) -> (r: bool)
        ensures
            r == self.expects(*event),
    {
        match self.phase {
            Phase::AwaitConfig => matches!(
                event,
                MonitorEvent::ConfigFetched(_) | MonitorEvent::ConfigFetchFailed(_)
                    | MonitorEvent::ConfigFetchTimedOut
            ),
            Phase::AwaitUpdate => matches!(event, MonitorEvent::UpdateFinished(_)),
            Phase::AwaitReset => matches!(event, MonitorEvent::ResetFinished(_)),
            Phase::AwaitAgentConfig => matches!(event, MonitorEvent::AgentConfigFetched(_)),
            Phase::AwaitStoredNetworks => matches!(event, MonitorEvent::StoredNetworksRead(_)),
            Phase::AwaitStore => matches!(event, MonitorEvent::NetworksStored(_)),
            Phase::AwaitRestart => matches!(event, MonitorEvent::Restarted),
            Phase::Finished => false,
        }
    }

    /// Whether the invocation is over.
    pub fn is_finished(&self) -> (r: bool)
        ensures
            r == (self.phase() == Phase::Finished),
    {
        matches!(self.phase, Phase::Finished)
    }
}

/// Whether `(after, action)` ends an invocation that leaves with flag `reboot`:
/// a restart first where it is asked for, else success with the default period.
pub open spec fn wind_up(reboot: bool, after: Invocation, action: MonitorAction) -> bool {
    if reboot {
        after.phase() == Phase::AwaitRestart && action is Restart
    } else {
        after.phase() == Phase::Finished && action == MonitorAction::Finish(
            Ok::<u64, AppClientError>(DEFAULT_PERIOD_SECS),
        )
    }
}

/// Whether `(after, action)` moves on from the update step: to clearing the
/// cached configuration where the revision changed, else to the device
/// configuration.
pub open spec fn after_update(revision_changed: bool, after: Invocation, action: MonitorAction) -> bool {
    if revision_changed {
        after.phase() == Phase::AwaitReset && action is ResetConfiguration
    } else {
        after.phase() == Phase::AwaitAgentConfig && action is FetchAgentConfig
    }
}

/// Keeps a machine's running configuration in line with the remote one.
pub struct ConfigMonitor {
    config_revision: String,
    update_model: Option<String>,
}

impl ConfigMonitor {
    /// The revision of the configuration that is running.
    pub closed spec fn spec_revision(&self) -> Seq<char> {
        self.config_revision@
    }

    /// The model triplet of the on-device update service, where updates are
    /// supported.
    pub closed spec fn spec_update_model(&self) -> Option<Seq<char>> {
        match self.update_model {
            Some(m) => Some(m@),
            None => None,
        }
    }

    /// A monitor for the running configuration `curr_config`; `update_model`
    /// names the update service model, where the build supports updates.
    pub fn new(curr_config: &RobotConfig, update_model: Option<String>) -> (r: Self)
        ensures
            r.spec_revision() == curr_config.revision@,
            r.spec_update_model() == match update_model {
                Some(m) => Some(m@),
                None => None::<Seq<char>>,
            },
    {
        ConfigMonitor { config_revision: curr_config.revision.clone(), update_model }
    }

    pub fn name(&self) -> (r: String)
        ensures
            r@ == "ConfigMonitor"@,
    {
        "ConfigMonitor".to_string()
    }

    /// Seconds between two invocations.
    pub fn get_default_period(&self) -> (r: u64)
        ensures
            r == DEFAULT_PERIOD_SECS,
    {
        DEFAULT_PERIOD_SECS
    }

    /// Starts an invocation: its first action fetches the remote
    /// configuration under the timeout.
    pub fn start(&self) -> (r: (Invocation, MonitorAction))
        ensures
            r.0.phase() == Phase::AwaitConfig,
            !r.0.reboot(),
            r.1 == MonitorAction::FetchConfig(FETCH_TIMEOUT_SECS),
    {
        (
            Invocation {
                phase: Phase::AwaitConfig,
                reboot: false,
                revision_changed: false,
                declared: Vec::new(),
            },
            MonitorAction::FetchConfig(FETCH_TIMEOUT_SECS),
        )
    }

    fn wind_up(reboot: bool) -> (r: (Invocation, MonitorAction))
        ensures
            wind_up(reboot, r.0, r.1),
            r.0.reboot() == reboot,
    {
        let phase = if reboot {
            Phase::AwaitRestart
        } else {
            Phase::Finished
        };
        let action = if reboot {
            MonitorAction::Restart
        } else {
            MonitorAction::Finish(Ok(DEFAULT_PERIOD_SECS))
        };
        (Invocation { phase, reboot, revision_changed: false, declared: Vec::new() }, action)
    }

    fn after_update(reboot: bool, revision_changed: bool) -> (r: (Invocation, MonitorAction))
        ensures
            after_update(revision_changed, r.0, r.1),
            r.0.reboot() == reboot,
    {
        if revision_changed {
            (
                Invocation { phase: Phase::AwaitReset, reboot, revision_changed, declared: Vec::new() },
                MonitorAction::ResetConfiguration,
            )
        } else {
            (
                Invocation {
                    phase: Phase::AwaitAgentConfig,
                    reboot,
                    revision_changed,
                    declared: Vec::new(),
                },
                MonitorAction::FetchAgentConfig,
            )
        }
    }

    /// The next state of `inv` and the next action, once `event` has come.
    pub fn on_event(&self, inv: Invocation, event: MonitorEvent) -> (r: (Invocation, MonitorAction))
        requires
            inv.expects(event),
        ensures
            match event {
                MonitorEvent::ConfigFetchFailed(e) => r.0.phase() == Phase::Finished && !r.0.reboot()
                    && r.1 == MonitorAction::Finish(Err(e)),
                MonitorEvent::ConfigFetchTimedOut => r.0.phase() == Phase::Finished && !r.0.reboot()
                    && r.1 == MonitorAction::Finish(Err(AppClientError::AppClientRequestTimeout)),
                MonitorEvent::ConfigFetched(None) => r.0.reboot() == inv.reboot() && after_update(
                    false,
                    r.0,
                    r.1,
                ),
                MonitorEvent::ConfigFetched(Some(config)) => {
                    let changed = config.revision@ != self.spec_revision();
                    match self.spec_update_model() {
                        Some(m) if first_with_model(config.services@, m) is Some => {
                            &&& r.0.phase() == Phase::AwaitUpdate
                            &&& r.0.reboot() == inv.reboot()
                            &&& r.0.revision_changed() == changed
                            &&& r.1 == MonitorAction::RunUpdate(
                                config.services@[first_with_model(config.services@, m)->0],
                            )
                        },
                        _ => r.0.reboot() == inv.reboot() && after_update(changed, r.0, r.1),
                    }
                },
                MonitorEvent::UpdateFinished(outcome) => r.0.reboot() == match outcome {
                    Some(b) => b,
                    None => inv.reboot(),
                } && after_update(inv.revision_changed(), r.0, r.1),
                MonitorEvent::ResetFinished(ok) => r.0.reboot() == (inv.reboot() || ok) && r.0.phase()
                    == Phase::AwaitAgentConfig && r.1 is FetchAgentConfig,
                MonitorEvent::AgentConfigFetched(None) => wind_up(inv.reboot(), r.0, r.1),
                MonitorEvent::AgentConfigFetched(Some(declared)) => r.0.phase()
                    == Phase::AwaitStoredNetworks && r.0.reboot() == inv.reboot() && r.0.declared()
                    == networks_view(declared@) && r.1 is ReadStoredNetworks,
                MonitorEvent::StoredNetworksRead(stored) => {
                    let s = match stored {
                        Some(v) => networks_view(v@),
                        None => Seq::<NetworkView>::empty(),
                    };
                    if settings_differ(inv.declared(), s) {
                        r.0.phase() == Phase::AwaitStore && r.0.reboot() == inv.reboot() && (r.1 matches MonitorAction::StoreNetworks(d) && networks_view(d@) == inv.declared())
                    } else {
                        wind_up(inv.reboot(), r.0, r.1)
                    }
                },
                MonitorEvent::NetworksStored(ok) => wind_up(inv.reboot() || ok, r.0, r.1),
                MonitorEvent::Restarted => r.0.phase() == Phase::Finished && r.1 == MonitorAction::Finish(Ok::<u64, AppClientError>(DEFAULT_PERIOD_SECS)),
            },
    {
        match event {
            MonitorEvent::ConfigFetchFailed(e) => (
                Invocation { phase: Phase::Finished, reboot: false, revision_changed: false, declared: Vec::new() },
                MonitorAction::Finish(Err(e)),
            ),
            MonitorEvent::ConfigFetchTimedOut => (
                Invocation { phase: Phase::Finished, reboot: false, revision_changed: false, declared: Vec::new() },
                MonitorAction::Finish(Err(AppClientError::AppClientRequestTimeout)),
            ),
            MonitorEvent::ConfigFetched(None) => Self::after_update(inv.reboot, false),
            MonitorEvent::ConfigFetched(Some(config)) => {
                let changed = config.revision != self.config_revision;
                let found = match &self.update_model {
                    Some(m) => find_service(&config.services, m),
                    None => None,
                };
                match found {
                    Some(i) => {
                        let mut services = config.services;
                        let service = services.swap_remove(i);
                        (
                            Invocation {
                                phase: Phase::AwaitUpdate,
                                reboot: inv.reboot,
                                revision_changed: changed,
                                declared: Vec::new(),
                            },
                            MonitorAction::RunUpdate(service),
                        )
                    },
                    None => Self::after_update(inv.reboot, changed),
                }
            },
            MonitorEvent::UpdateFinished(outcome) => {
                let reboot = match outcome {
                    Some(b) => b,
                    None => inv.reboot,
                };
                Self::after_update(reboot, inv.revision_changed)
            },
            MonitorEvent::ResetFinished(ok) => (
                Invocation {
                    phase: Phase::AwaitAgentConfig,
                    reboot: inv.reboot || ok,
                    revision_changed: inv.revision_changed,
                    declared: Vec::new(),
                },
                MonitorAction::FetchAgentConfig,
            ),
            MonitorEvent::AgentConfigFetched(None) => Self::wind_up(inv.reboot),
            MonitorEvent::AgentConfigFetched(Some(declared)) => (
                Invocation {
                    phase: Phase::AwaitStoredNetworks,
                    reboot: inv.reboot,
                    revision_changed: inv.revision_changed,
                    declared,
                },
                MonitorAction::ReadStoredNetworks,
            ),
            MonitorEvent::StoredNetworksRead(stored) => {
                let stored = match stored {
                    Some(v) => v,
                    None => Vec::new(),
                };
                if network_settings_differ(&inv.declared, &stored) {
                    (
                        Invocation {
                            phase: Phase::AwaitStore,
                            reboot: inv.reboot,
                            revision_changed: inv.revision_changed,
                            declared: Vec::new(),
                        },
                        MonitorAction::StoreNetworks(inv.declared),
                    )
                } else {
                    Self::wind_up(inv.reboot)
                }
            },
            MonitorEvent::NetworksStored(ok) => Self::wind_up(inv.reboot || ok),
            MonitorEvent::Restarted => (
                Invocation { phase: Phase::Finished, reboot: inv.reboot, revision_changed: false, declared: Vec::new() },
                MonitorAction::Finish(Ok(DEFAULT_PERIOD_SECS)),
            ),
        }
    }
}

} // verus!
