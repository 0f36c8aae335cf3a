//! The shared device-state model: one snapshot of everything the
//! dashboard shows, mutated only by one reducer per status topic. Each
//! reducer replaces its own fragment and provably leaves every other
//! fragment alone, so updates arriving out of order across topics
//! commute.

use std::collections::HashMap;

use vstd::prelude::*;

use crate::eve_types::{
    AppInstanceStatus, AppInstanceSummary, AppsList, DataSecAtRestStatus, DeviceNetworkStatus,
    DownloaderStatus, ErrorAndTime, EveNodeStatus, EveOnboardingStatus, EveVaultStatus, PCRStatus,
    SwState,
};
use crate::network::NetworkInterface;
use crate::text::contains_seq;
use crate::time::Timestamp;

verus! {

/// Where the device stands in registering with its controller.
#[derive(Clone, Debug, PartialEq, Eq)]
pub enum OnboardingStatus {
    Unknown,
    Onboarding,
    Onboarded(u128),
    Error(String),
}

impl Default for OnboardingStatus {
    /// Nothing is known until the first node-status update.
    fn default() -> (r: OnboardingStatus)
        ensures
            r == OnboardingStatus::Unknown,
    {
        OnboardingStatus::Unknown
    }
}

/// The node's identity and aggregate application counts.
#[derive(Clone, Debug, PartialEq, Eq)]
pub struct NodeStatus {
    pub server: Option<String>,
    pub app_summary: AppInstanceSummary,
    pub onboarding_status: OnboardingStatus,
}

impl Default for NodeStatus {
    /// No server, zero counts, onboarding state unknown.
    fn default() -> (r: NodeStatus)
        ensures
            r.server is None,
            r.app_summary == (AppInstanceSummary {
                total_starting: 0u8,
                total_running: 0u8,
                total_stopping: 0u8,
                total_error: 0u8,
            }),
            r.onboarding_status == OnboardingStatus::Unknown,
    {
        NodeStatus {
            server: None,
            app_summary: AppInstanceSummary::default(),
            onboarding_status: OnboardingStatus::Unknown,
        }
    }
}

/// Lifecycle state of one application instance, with the error text when
/// the instance reported one.
#[derive(Clone, Debug, PartialEq, Eq)]
pub enum AppInstanceState {
    Normal(SwState),
    Error(SwState, String),
}

/// One application instance as the dashboard shows it.
#[derive(Clone, Debug, PartialEq, Eq)]
pub struct AppInstance {
    pub name: String,
    pub uuid: u128,
    pub version: String,
    pub state: AppInstanceState,
}

/// An error with the time it was reported.
#[derive(Clone, Debug, PartialEq, Eq)]
pub struct EveError {
    pub error: String,
    pub time: Timestamp,
}

/// The error an inline error report carries.
pub open spec fn eve_error_of(e: ErrorAndTime) -> EveError {
    EveError { error: e.error_description.error, time: e.error_description.error_time }
}

impl EveError {
    /// Keep the text and time of an inline error report.
    pub fn from_error_and_time(e: ErrorAndTime) -> (r: EveError)
        ensures
            r == eve_error_of(e),
    {
        EveError { error: e.error_description.error, time: e.error_description.error_time }
    }
}

/// State of the vault as the dashboard shows it. The boolean of the
/// disabled and unlocked states says whether a TPM backs the vault.
#[derive(Clone, Debug, PartialEq, Eq)]
pub enum VaultStatus {
    Unknown,
    EncryptionDisabled(EveError, bool),
    Unlocked(bool),
    Locked(EveError, Option<Vec<u32>>),
}

/// The vault state derived from one vault-status update: unknown stays
/// unknown; disabled keeps the reason; enabled means unlocked; an error
/// means locked, with the mismatching register list kept only when the
/// error text says the vault key is unavailable. A TPM backs the vault
/// exactly when the reported register status is enabled.
pub open spec fn vault_status_of(vs: EveVaultStatus) -> VaultStatus {
    let tpm_used = vs.pcr_status == PCRStatus::PcrEnabled;
    match vs.status {
        DataSecAtRestStatus::DataSecAtRestUnknown => VaultStatus::Unknown,
        DataSecAtRestStatus::DataSecAtRestDisabled => VaultStatus::EncryptionDisabled(
            eve_error_of(vs.error_and_time),
            tpm_used,
        ),
        DataSecAtRestStatus::DataSecAtRestEnabled => VaultStatus::Unlocked(tpm_used),
        DataSecAtRestStatus::DataSecAtRestError => VaultStatus::Locked(
            eve_error_of(vs.error_and_time),
            if contains_seq(
                vs.error_and_time.error_description.error@,
                "Vault key unavailable"@,
            ) {
                vs.mismatching_pcrs
            } else {
                None
            },
        ),
    }
}

impl VaultStatus {
    /// Derive the dashboard's vault state from one vault-status update.
    pub fn from_eve(vs: EveVaultStatus) -> (r: VaultStatus)
        ensures
            r == vault_status_of(vs),
    {
        let tpm_used = vs.pcr_status == PCRStatus::PcrEnabled;
        match vs.status {
            DataSecAtRestStatus::DataSecAtRestUnknown => VaultStatus::Unknown,
            DataSecAtRestStatus::DataSecAtRestDisabled => VaultStatus::EncryptionDisabled(
                EveError::from_error_and_time(vs.error_and_time),
                tpm_used,
            ),
            DataSecAtRestStatus::DataSecAtRestEnabled => VaultStatus::Unlocked(tpm_used),
            DataSecAtRestStatus::DataSecAtRestError => {
                let pcrs = if crate::text::str_contains(
                    vs.error_and_time.error_description.error.as_str(),
                    "Vault key unavailable",
                ) {
                    vs.mismatching_pcrs
                } else {
                    None
                };
                VaultStatus::Locked(EveError::from_error_and_time(vs.error_and_time), pcrs)
            },
        }
    }
}

/// The instance entry derived from one app-status update: name, identity
/// and version are copied; the state carries the error text when one is
/// reported, and is normal otherwise.
pub open spec fn app_instance_of(app: AppInstanceStatus) -> AppInstance {
    AppInstance {
        name: app.display_name,
        uuid: app.uuid_and_version.uuid,
        version: app.uuid_and_version.version,
        state: if app.error_and_time_with_source.error_description.error@.len() != 0 {
            AppInstanceState::Error(app.state, app.error_and_time_with_source.error_description.error)
        } else {
            AppInstanceState::Normal(app.state)
        },
    }
}

impl AppInstance {
    /// Derive the dashboard's instance entry from one app-status update.
    pub fn from_status(app: AppInstanceStatus) -> (r: AppInstance)
        ensures
            r == app_instance_of(app),
    {
        let has_error = app.error_and_time_with_source.error_description.error.as_str().unicode_len()
            != 0;
        let state = if has_error {
            AppInstanceState::Error(app.state, app.error_and_time_with_source.error_description.error)
        } else {
            AppInstanceState::Normal(app.state)
        };
        AppInstance {
            name: app.display_name,
            uuid: app.uuid_and_version.uuid,
            version: app.uuid_and_version.version,
            state,
        }
    }
}

/// The onboarding state derived from one node-status update: onboarded
/// with an identity is onboarded; onboarded without one is an error; not
/// onboarded is still onboarding.
pub open spec fn is_onboarding_of(r: OnboardingStatus, onboarded: bool, node_uuid: Option<u128>) -> bool {
    match (onboarded, node_uuid) {
        (true, Some(u)) => r == OnboardingStatus::Onboarded(u),
        (true, None) => (r matches OnboardingStatus::Error(msg) && msg@
            == "Node UUID is missing"@),
        (false, _) => r == OnboardingStatus::Onboarding,
    }
}

/// The node status derived from one node-status update: server and counts
/// are copied, absent counts default to zero, and the onboarding state
/// follows `is_onboarding_of`.
pub open spec fn is_node_status_of(r: NodeStatus, ns: EveNodeStatus) -> bool {
    &&& r.server == ns.server
    &&& r.app_summary == match ns.app_instance_summary {
        Some(s) => s,
        None => AppInstanceSummary {
            total_starting: 0u8,
            total_running: 0u8,
            total_stopping: 0u8,
            total_error: 0u8,
        },
    }
    &&& is_onboarding_of(r.onboarding_status, ns.onboarded, ns.node_uuid)
}

impl NodeStatus {
    /// Derive the dashboard's node status from one node-status update.
    pub fn from_eve(ns: EveNodeStatus) -> (r: NodeStatus)
        ensures
            is_node_status_of(r, ns),
    {
        let onboarding_status = match (ns.onboarded, ns.node_uuid) {
            (true, Some(u)) => OnboardingStatus::Onboarded(u),
            (true, None) => OnboardingStatus::Error("Node UUID is missing".to_owned()),
            (false, _) => OnboardingStatus::Onboarding,
        };
        let app_summary = match ns.app_instance_summary {
            Some(s) => s,
            None => AppInstanceSummary::default(),
        };
        NodeStatus { server: ns.server, app_summary, onboarding_status }
    }
}

/// The app map after a wholesale replacement from a list: each entry
/// derived as from a single update, later entries winning on a repeated
/// id.
pub open spec fn apps_map_of(apps: Seq<AppInstanceStatus>) -> Map<u128, AppInstance>
    decreases apps.len(),
{
    if apps.len() == 0 {
        Map::<u128, AppInstance>::empty()
    } else {
        apps_map_of(apps.drop_last()).insert(
            apps.last().uuid_and_version.uuid,
            app_instance_of(apps.last()),
        )
    }
}

/// The one snapshot of device state the render loop reads. Every reducer
/// below replaces one fragment and leaves the others untouched.
pub struct MonitorModel {
    pub dmesg: Vec<String>,
    pub network: Vec<NetworkInterface>,
    pub downloader: Option<DownloaderStatus>,
    pub node_status: NodeStatus,
    pub apps: HashMap<u128, AppInstance>,
    pub vault_status: VaultStatus,
}

impl Default for MonitorModel {
    /// The startup snapshot: everything empty or unknown.
    fn default() -> (r: MonitorModel)
        ensures
            r.dmesg@.len() == 0,
            r.network@.len() == 0,
            r.downloader is None,
            r.node_status.server is None,
            r.node_status.onboarding_status == OnboardingStatus::Unknown,
            r.apps@ == Map::<u128, AppInstance>::empty(),
            r.vault_status == VaultStatus::Unknown,
    {
        MonitorModel {
            dmesg: Vec::new(),
            network: Vec::new(),
            downloader: None,
            node_status: NodeStatus::default(),
            apps: HashMap::new(),
            vault_status: VaultStatus::Unknown,
        }
    }
}

impl MonitorModel {
    /// Apply one app-status update: upsert the entry for that instance's
    /// id, leaving every other fragment of the model unchanged. Applying
    /// the same update twice leaves exactly one entry with identical
    /// content, by `lemma_app_status_idempotent`.
    pub fn update_app_status(&mut self, state: AppInstanceStatus)
        ensures
            final(self).apps@ == old(self).apps@.insert(
                state.uuid_and_version.uuid,
                app_instance_of(state),
            ),
            final(self).dmesg == old(self).dmesg,
            final(self).network == old(self).network,
            final(self).downloader == old(self).downloader,
            final(self).node_status == old(self).node_status,
            final(self).vault_status == old(self).vault_status,
    {
        let uuid = state.uuid_and_version.uuid;
        let app = AppInstance::from_status(state);
        self.apps.insert(uuid, app);
    }

    /// Apply an app-list update: replace the app map wholesale, each entry
    /// derived as from a single update.
    pub fn update_app_list(&mut self, apps_list: AppsList)
        ensures
            final(self).apps@ == apps_map_of(apps_list.apps@),
            final(self).dmesg == old(self).dmesg,
            final(self).network == old(self).network,
            final(self).downloader == old(self).downloader,
            final(self).node_status == old(self).node_status,
            final(self).vault_status == old(self).vault_status,
    {
        let ghost all = apps_list.apps@;
        let mut fresh: HashMap<u128, AppInstance> = HashMap::new();
        proof {
            assert(all.subrange(0, 0) =~= Seq::<AppInstanceStatus>::empty());
        }
        for app in it: apps_list.apps.into_iter()
            invariant
                it.seq() == all,
                fresh@ == apps_map_of(all.subrange(0, it.index() as int)),
        {
            let ghost i = it.index();
            let uuid = app.uuid_and_version.uuid;
            let entry = AppInstance::from_status(app);
            proof {
                assert(all.subrange(0, i + 1).drop_last() =~= all.subrange(0, i));
                assert(all.subrange(0, i + 1).last() == all[i]);
            }
            fresh.insert(uuid, entry);
        }
        proof {
            assert(all.subrange(0, all.len() as int) =~= all);
        }
        self.apps = fresh;
    }

    /// Apply a downloader update: replace the snapshot wholesale.
    pub fn update_downloader_status(&mut self, status: DownloaderStatus)
        ensures
            final(self).downloader == Some(status),
            final(self).dmesg == old(self).dmesg,
            final(self).network == old(self).network,
            final(self).node_status == old(self).node_status,
            final(self).apps == old(self).apps,
            final(self).vault_status == old(self).vault_status,
    {
        self.downloader = Some(status);
    }

    /// Apply a node-status update: replace the node fragment.
    pub fn update_node_status(&mut self, status: EveNodeStatus)
        ensures
            is_node_status_of(final(self).node_status, status),
            final(self).dmesg == old(self).dmesg,
            final(self).network == old(self).network,
            final(self).downloader == old(self).downloader,
            final(self).apps == old(self).apps,
            final(self).vault_status == old(self).vault_status,
    {
        self.node_status = NodeStatus::from_eve(status);
    }

    /// Apply an app-summary update: replace the aggregate counts alone.
    pub fn update_app_summary(&mut self, app_summary: AppInstanceSummary)
        ensures
            final(self).node_status.app_summary == app_summary,
            final(self).node_status.server == old(self).node_status.server,
            final(self).node_status.onboarding_status == old(self).node_status.onboarding_status,
            final(self).dmesg == old(self).dmesg,
            final(self).network == old(self).network,
            final(self).downloader == old(self).downloader,
            final(self).apps == old(self).apps,
            final(self).vault_status == old(self).vault_status,
    {
        self.node_status.app_summary = app_summary;
    }

    /// Apply a network-status update: replace the interface list with one
    /// entry per port; an absent port list yields an empty interface list.
    /// The app map, vault status and node status are left unchanged.
    pub fn update_network_status(&mut self, net_status: DeviceNetworkStatus)
        ensures
            match net_status.ports {
                Some(ports) => final(self).network@.len() == ports@.len() && (forall|i: int|
                    0 <= i < ports@.len() ==> crate::network::is_interface_of(
                        #[trigger] final(self).network@[i],
                        ports@[i],
                    )),
                None => final(self).network@.len() == 0,
            },
            final(self).dmesg == old(self).dmesg,
            final(self).downloader == old(self).downloader,
            final(self).node_status == old(self).node_status,
            final(self).apps == old(self).apps,
            final(self).vault_status == old(self).vault_status,
    {
        let mut interfaces: Vec<NetworkInterface> = Vec::new();
        match net_status.ports {
            Some(ports) => {
                let ghost all = ports@;
                for port in it: ports.into_iter()
                    invariant
                        it.seq() == all,
                        interfaces@.len() == it.index(),
                        forall|i: int|
                            0 <= i < it.index() ==> crate::network::is_interface_of(
                                #[trigger] interfaces@[i],
                                all[i],
                            ),
                {
                    interfaces.push(NetworkInterface::from_port(port));
                }
            },
            None => {},
        }
        self.network = interfaces;
    }

    /// Apply a vault-status update: replace the vault fragment.
    pub fn update_vault_status(&mut self, vault_status: EveVaultStatus)
        ensures
            final(self).vault_status == vault_status_of(vault_status),
            final(self).dmesg == old(self).dmesg,
            final(self).network == old(self).network,
            final(self).downloader == old(self).downloader,
            final(self).node_status == old(self).node_status,
            final(self).apps == old(self).apps,
    {
        self.vault_status = VaultStatus::from_eve(vault_status);
    }

    /// Append one kernel log line, the newest at the end; every other
    /// fragment stays.
    pub fn append_dmesg_line(&mut self, line: String)
        ensures
            final(self).dmesg@ == old(self).dmesg@.push(line),
            final(self).network == old(self).network,
            final(self).downloader == old(self).downloader,
            final(self).node_status == old(self).node_status,
            final(self).apps == old(self).apps,
            final(self).vault_status == old(self).vault_status,
    {
        self.dmesg.push(line);
    }

    /// Apply an onboarding update: the device is now onboarded under the
    /// reported identity.
    pub fn update_onboarding_status(&mut self, status: EveOnboardingStatus)
        ensures
            final(self).node_status.onboarding_status == OnboardingStatus::Onboarded(
                status.device_uuid,
            ),
            final(self).node_status.server == old(self).node_status.server,
            final(self).node_status.app_summary == old(self).node_status.app_summary,
            final(self).dmesg == old(self).dmesg,
            final(self).network == old(self).network,
            final(self).downloader == old(self).downloader,
            final(self).apps == old(self).apps,
            final(self).vault_status == old(self).vault_status,
    {
        self.node_status.onboarding_status = OnboardingStatus::Onboarded(status.device_uuid);
    }
}

/// Law: applying the same app-status update twice is the same as applying
/// it once, and the map then holds exactly one entry for that id, whose
/// content is the entry the update derives.
pub proof fn lemma_app_status_idempotent(apps: Map<u128, AppInstance>, state: AppInstanceStatus)
    ensures
        apps.insert(state.uuid_and_version.uuid, app_instance_of(state)).insert(
            state.uuid_and_version.uuid,
            app_instance_of(state),
        ) == apps.insert(state.uuid_and_version.uuid, app_instance_of(state)),
        apps.insert(state.uuid_and_version.uuid, app_instance_of(state)).contains_key(
            state.uuid_and_version.uuid,
        ),
        apps.insert(state.uuid_and_version.uuid, app_instance_of(state))[state.uuid_and_version.uuid]
            == app_instance_of(state),
{
    let k = state.uuid_and_version.uuid;
    let v = app_instance_of(state);
    assert(apps.insert(k, v).insert(k, v) =~= apps.insert(k, v));
}

} // verus!
