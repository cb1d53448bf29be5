use micro_rdk::config_monitor::{
    network_settings_differ, AppClientError, ConfigMonitor, MonitorAction, MonitorEvent,
    NetworkSetting, RobotConfig, ServiceConfig, DEFAULT_PERIOD_SECS, FETCH_TIMEOUT_SECS,
};

const UPDATE_MODEL: &str = "rdk:builtin:ota_service";

fn config(revision: &str, services: Vec<ServiceConfig>) -> RobotConfig {
    RobotConfig {
        revision: revision.to_string(),
        services,
    }
}

fn net(ssid: &str, priority: i32) -> NetworkSetting {
    NetworkSetting {
        ssid: ssid.to_string(),
        password: "pw".to_string(),
        priority,
    }
}

/// What a scripted environment answers, and what it saw.
struct Script {
    fetch: Option<Result<Option<RobotConfig>, AppClientError>>,
    update: Option<bool>,
    reset_ok: bool,
    agent: Option<Vec<NetworkSetting>>,
    stored: Option<Vec<NetworkSetting>>,
    store_ok: bool,
    restarts: usize,
    resets: usize,
    updates: Vec<String>,
    stored_lists: Vec<Vec<NetworkSetting>>,
}

impl Script {
    fn new(fetch: Option<Result<Option<RobotConfig>, AppClientError>>) -> Self {
        Script {
            fetch,
            update: None,
            reset_ok: true,
            agent: None,
            stored: None,
            store_ok: true,
            restarts: 0,
            resets: 0,
            updates: Vec::new(),
            stored_lists: Vec::new(),
        }
    }

    /// Runs one invocation to its end; `None` in `fetch` plays a fetch that
    /// outlasts the timeout.
    fn run(&mut self, monitor: &ConfigMonitor) -> Result<u64, AppClientError> {
        let (mut inv, mut action) = monitor.start();
        loop {
            let event = match action {
                MonitorAction::FetchConfig(timeout) => {
                    assert_eq!(timeout, FETCH_TIMEOUT_SECS);
                    match self.fetch.take() {
                        None => MonitorEvent::ConfigFetchTimedOut,
                        Some(Ok(c)) => MonitorEvent::ConfigFetched(c),
                        Some(Err(e)) => MonitorEvent::ConfigFetchFailed(e),
                    }
                }
                MonitorAction::RunUpdate(service) => {
                    self.updates.push(service.name.clone());
                    MonitorEvent::UpdateFinished(self.update)
                }
                MonitorAction::ResetConfiguration => {
                    self.resets += 1;
                    MonitorEvent::ResetFinished(self.reset_ok)
                }
                MonitorAction::FetchAgentConfig => MonitorEvent::AgentConfigFetched(self.agent.clone()),
                MonitorAction::ReadStoredNetworks => MonitorEvent::StoredNetworksRead(self.stored.clone()),
                MonitorAction::StoreNetworks(list) => {
                    self.stored_lists.push(list);
                    MonitorEvent::NetworksStored(self.store_ok)
                }
                MonitorAction::Restart => {
                    self.restarts += 1;
                    MonitorEvent::Restarted
                }
                MonitorAction::Finish(r) => {
                    assert!(inv.is_finished());
                    return r;
                }
            };
            assert!(inv.accepts(&event));
            let (next, next_action) = monitor.on_event(inv, event);
            inv = next;
            action = next_action;
        }
    }
}

#[test]
fn new_revision_restarts_once() {
    let monitor = ConfigMonitor::new(&config("rev-1", vec![]), None);
    let mut script = Script::new(Some(Ok(Some(config("rev-2", vec![])))));
    assert_eq!(script.run(&monitor), Ok(DEFAULT_PERIOD_SECS));
    assert_eq!(script.resets, 1);
    assert_eq!(script.restarts, 1);
}

#[test]
fn same_revision_does_nothing() {
    let monitor = ConfigMonitor::new(&config("rev-1", vec![]), None);
    let mut script = Script::new(Some(Ok(Some(config("rev-1", vec![])))));
    assert_eq!(script.run(&monitor), Ok(10));
    assert_eq!(script.resets, 0);
    assert_eq!(script.restarts, 0);
}

#[test]
fn failed_reset_does_not_restart() {
    let monitor = ConfigMonitor::new(&config("rev-1", vec![]), None);
    let mut script = Script::new(Some(Ok(Some(config("rev-2", vec![])))));
    script.reset_ok = false;
    assert_eq!(script.run(&monitor), Ok(10));
    assert_eq!(script.resets, 1);
    assert_eq!(script.restarts, 0);
}

#[test]
fn reordered_networks_do_not_restart() {
    let monitor = ConfigMonitor::new(&config("rev-1", vec![]), None);
    let mut script = Script::new(Some(Ok(Some(config("rev-1", vec![])))));
    script.agent = Some(vec![net("a", 1), net("b", 2), net("c", 3)]);
    script.stored = Some(vec![net("c", 3), net("a", 1), net("b", 2)]);
    assert_eq!(script.run(&monitor), Ok(10));
    assert!(script.stored_lists.is_empty());
    assert_eq!(script.restarts, 0);
}

#[test]
fn changed_networks_are_stored_and_restart() {
    let monitor = ConfigMonitor::new(&config("rev-1", vec![]), None);
    let mut script = Script::new(Some(Ok(Some(config("rev-1", vec![])))));
    script.agent = Some(vec![net("a", 1), net("b", 2)]);
    script.stored = Some(vec![net("a", 1), net("b", 5)]);
    assert_eq!(script.run(&monitor), Ok(10));
    assert_eq!(script.stored_lists, vec![vec![net("a", 1), net("b", 2)]]);
    assert_eq!(script.restarts, 1);

    // unreadable storage counts as empty
    let mut script = Script::new(Some(Ok(Some(config("rev-1", vec![])))));
    script.agent = Some(vec![net("a", 1)]);
    script.stored = None;
    assert_eq!(script.run(&monitor), Ok(10));
    assert_eq!(script.stored_lists.len(), 1);
    assert_eq!(script.restarts, 1);

    // a failed store is only logged: no restart
    let mut script = Script::new(Some(Ok(Some(config("rev-1", vec![])))));
    script.agent = Some(vec![net("a", 1)]);
    script.stored = Some(vec![]);
    script.store_ok = false;
    assert_eq!(script.run(&monitor), Ok(10));
    assert_eq!(script.restarts, 0);
}

#[test]
fn fetch_timeout_fails_without_reboot() {
    let monitor = ConfigMonitor::new(&config("rev-1", vec![]), None);
    let mut script = Script::new(None);
    script.agent = Some(vec![net("a", 1)]);
    assert_eq!(
        script.run(&monitor),
        Err(AppClientError::AppClientRequestTimeout)
    );
    assert_eq!(script.restarts, 0);
    assert_eq!(script.resets, 0);
    assert!(script.stored_lists.is_empty());
}

#[test]
fn fetch_failure_is_returned() {
    let monitor = ConfigMonitor::new(&config("rev-1", vec![]), None);
    let err = AppClientError::Request("unavailable".to_string());
    let mut script = Script::new(Some(Err(err.clone())));
    assert_eq!(script.run(&monitor), Err(err));
    assert_eq!(script.restarts, 0);
}

#[test]
fn empty_response_skips_revision_check() {
    let monitor = ConfigMonitor::new(&config("rev-1", vec![]), None);
    let mut script = Script::new(Some(Ok(None)));
    assert_eq!(script.run(&monitor), Ok(10));
    assert_eq!(script.resets, 0);
    assert_eq!(script.restarts, 0);
}

#[test]
fn update_service_runs_first() {
    let services = vec![
        ServiceConfig { name: "nav".to_string(), model: "rdk:builtin:nav".to_string() },
        ServiceConfig { name: "ota".to_string(), model: UPDATE_MODEL.to_string() },
        ServiceConfig { name: "ota2".to_string(), model: UPDATE_MODEL.to_string() },
    ];
    let monitor = ConfigMonitor::new(&config("rev-1", vec![]), Some(UPDATE_MODEL.to_string()));
    let mut script = Script::new(Some(Ok(Some(config("rev-1", services.clone())))));
    script.update = Some(true);
    assert_eq!(script.run(&monitor), Ok(10));
    assert_eq!(script.updates, vec!["ota".to_string()]);
    assert_eq!(script.restarts, 1);

    // a failed update is only logged
    let mut script = Script::new(Some(Ok(Some(config("rev-1", services.clone())))));
    script.update = None;
    assert_eq!(script.run(&monitor), Ok(10));
    assert_eq!(script.updates.len(), 1);
    assert_eq!(script.restarts, 0);

    // without update support the service is ignored
    let plain = ConfigMonitor::new(&config("rev-1", vec![]), None);
    let mut script = Script::new(Some(Ok(Some(config("rev-1", services)))));
    script.update = Some(true);
    assert_eq!(script.run(&plain), Ok(10));
    assert!(script.updates.is_empty());
    assert_eq!(script.restarts, 0);
}

#[test]
fn update_and_new_revision_restart_once() {
    let services = vec![ServiceConfig { name: "ota".to_string(), model: UPDATE_MODEL.to_string() }];
    let monitor = ConfigMonitor::new(&config("rev-1", vec![]), Some(UPDATE_MODEL.to_string()));
    let mut script = Script::new(Some(Ok(Some(config("rev-2", services)))));
    script.update = Some(false);
    script.agent = Some(vec![net("a", 1)]);
    script.stored = Some(vec![net("b", 1)]);
    assert_eq!(script.run(&monitor), Ok(10));
    assert_eq!(script.updates.len(), 1);
    assert_eq!(script.resets, 1);
    assert_eq!(script.stored_lists.len(), 1);
    assert_eq!(script.restarts, 1);
}

#[test]
fn network_difference_is_by_membership() {
    assert!(!network_settings_differ(&vec![], &vec![]));
    assert!(!network_settings_differ(
        &vec![net("a", 1), net("b", 2)],
        &vec![net("b", 2), net("a", 1)]
    ));
    assert!(network_settings_differ(&vec![net("a", 1)], &vec![]));
    assert!(network_settings_differ(&vec![net("a", 1)], &vec![net("a", 2)]));
    assert!(network_settings_differ(
        &vec![net("a", 1)],
        &vec![net("a", 1), net("a", 1)]
    ));
    // same count, every declared entry stored: no difference
    assert!(!network_settings_differ(
        &vec![net("a", 1), net("a", 1)],
        &vec![net("a", 1), net("b", 1)]
    ));
}

#[test]
fn monitor_basics() {
    let monitor = ConfigMonitor::new(&config("rev-1", vec![]), None);
    assert_eq!(monitor.name(), "ConfigMonitor");
    assert_eq!(monitor.get_default_period(), 10);
    let (inv, action) = monitor.start();
    assert!(matches!(action, MonitorAction::FetchConfig(60)));
    assert!(!inv.accepts(&MonitorEvent::Restarted));
    assert!(inv.accepts(&MonitorEvent::ConfigFetchTimedOut));
}
