use vstd::prelude::*;

verus! {

/// The minimum period of blocks on which GRANDPA justifications are imported
/// and generated.
pub const GRANDPA_JUSTIFICATION_PERIOD: u32 = 512;

/// How often GRANDPA gossips, in milliseconds.
pub const GRANDPA_GOSSIP_DURATION_MS: u64 = 333;

/// How many unfinalized blocks Aura tolerates before it backs off authoring.
pub const AURA_BACKOFF_UNFINALIZED_SLACK: u32 = 6;

/// How many manual-seal commands the RPC may queue for the authorship task.
pub const MANUAL_SEAL_COMMAND_CAPACITY: usize = 1000;

/// How many messages the telemetry worker buffers.
pub const TELEMETRY_WORKER_CAPACITY: usize = 16;

/// How blocks are sealed when the node runs without Aura.
#[derive(PartialEq, Eq, Structural, Clone, Copy, Debug)]
pub enum Sealing {
    /// A block is sealed when the RPC asks for one.
    Manual,
    /// A block is sealed as soon as a transaction arrives.
    Instant,
}

/// The block import queue a node is built with.
#[derive(PartialEq, Eq, Structural, Clone, Copy, Debug)]
pub enum ImportQueueKind {
    /// Aura block verification behind the frontier and GRANDPA block imports.
    AuraGrandpa,
    /// The manual-seal queue behind the frontier block import.
    ManualSeal,
}

/// The sealing task an authority runs in place of Aura.
#[derive(PartialEq, Eq, Structural, Clone, Copy, Debug)]
pub enum SealTask {
    /// Seals on commands from the RPC command stream.
    ManualSeal,
    /// Seals whenever the pool has a new transaction.
    InstantSeal,
}

/// The settings of the Aura authoring task.
#[derive(PartialEq, Eq, Structural, Clone, Copy, Debug)]
pub struct AuraPlan {
    pub force_authoring: bool,
    pub backoff_unfinalized_slack: u32,
}

/// How, if at all, the node produces blocks.
#[derive(PartialEq, Eq, Structural, Clone, Copy, Debug)]
pub enum Authorship {
    /// The node produces no blocks.
    Disabled,
    /// The node seals its blocks with a sealing task.
    Seal(SealTask),
    /// The node produces blocks with Aura.
    Aura(AuraPlan),
}

/// The settings of the GRANDPA voter.
#[derive(PartialEq, Eq, Structural, Clone, Copy, Debug)]
pub struct GrandpaVoterPlan {
    /// Whether the voter gets the node's keystore to vote with.
    pub with_keystore: bool,
    pub gossip_duration_ms: u64,
    pub justification_generation_period: u32,
    pub observer_enabled: bool,
}

/// The settings of the offchain workers.
#[derive(PartialEq, Eq, Structural, Clone, Copy, Debug)]
pub struct OffchainWorkersPlan {
    pub is_validator: bool,
    pub enable_http_requests: bool,
}

/// What of the node's configuration decides which services it runs.
#[derive(PartialEq, Eq, Structural, Clone, Copy, Debug)]
pub struct NodeSettings {
    /// Seal blocks this way in place of Aura and GRANDPA, if given.
    pub sealing: Option<Sealing>,
    /// The node's role is an authority.
    pub is_authority: bool,
    pub offchain_worker_enabled: bool,
    pub disable_grandpa: bool,
    pub force_authoring: bool,
}

/// The services a full node is built with.
#[derive(PartialEq, Eq, Structural, Clone, Copy, Debug)]
pub struct FullNodePlan {
    pub import_queue: ImportQueueKind,
    /// The GRANDPA notification protocol is registered and GRANDPA warp sync offered.
    pub grandpa_networking: bool,
    pub offchain_workers: Option<OffchainWorkersPlan>,
    /// The RPC gets a sink for manual-seal commands.
    pub rpc_command_sink: bool,
    pub command_channel_capacity: usize,
    pub authorship: Authorship,
    pub grandpa_voter: Option<GrandpaVoterPlan>,
}

/// The import queue for the given sealing: manual seal when a sealing is
/// configured, Aura and GRANDPA otherwise.
pub open spec fn import_queue_for(sealing: Option<Sealing>) -> ImportQueueKind {
    if sealing is Some {
        ImportQueueKind::ManualSeal
    } else {
        ImportQueueKind::AuraGrandpa
    }
}

/// The sealing task that carries out a sealing.
pub open spec fn seal_task_for(sealing: Sealing) -> SealTask {
    match sealing {
        Sealing::Manual => SealTask::ManualSeal,
        Sealing::Instant => SealTask::InstantSeal,
    }
}

/// The authorship of a node: none for a non-authority; for an authority the
/// configured sealing, or Aura when none is configured.
pub open spec fn authorship_for(s: NodeSettings) -> Authorship {
    if !s.is_authority {
        Authorship::Disabled
    } else if let Some(sealing) = s.sealing {
        Authorship::Seal(seal_task_for(sealing))
    } else {
        Authorship::Aura(
            AuraPlan {
                force_authoring: s.force_authoring,
                backoff_unfinalized_slack: AURA_BACKOFF_UNFINALIZED_SLACK,
            },
        )
    }
}

/// The GRANDPA voter of a node. It runs unless GRANDPA is disabled or the
/// node is an authority that seals its blocks (that node is done once its
/// sealing task is running); it votes with the keystore on an authority only.
pub open spec fn grandpa_voter_for(s: NodeSettings) -> Option<GrandpaVoterPlan> {
    if s.disable_grandpa || (s.is_authority && s.sealing is Some) {
        None
    } else {
        Some(
            GrandpaVoterPlan {
                with_keystore: s.is_authority,
                gossip_duration_ms: GRANDPA_GOSSIP_DURATION_MS,
                justification_generation_period: GRANDPA_JUSTIFICATION_PERIOD,
                observer_enabled: false,
            },
        )
    }
}

/// The services of a full node with the given settings.
pub open spec fn full_node_plan(s: NodeSettings) -> FullNodePlan {
    FullNodePlan {
        import_queue: import_queue_for(s.sealing),
        grandpa_networking: s.sealing is None,
        offchain_workers: if s.offchain_worker_enabled {
            Some(OffchainWorkersPlan { is_validator: s.is_authority, enable_http_requests: true })
        } else {
            None
        },
        rpc_command_sink: s.sealing is Some,
        command_channel_capacity: MANUAL_SEAL_COMMAND_CAPACITY,
        authorship: authorship_for(s),
        grandpa_voter: grandpa_voter_for(s),
    }
}

/// Chooses the import queue: manual seal when a sealing is configured, Aura
/// and GRANDPA otherwise.
pub fn select_import_queue(sealing: Option<Sealing>) -> (kind: ImportQueueKind)
    ensures
        kind == import_queue_for(sealing),
{
    match sealing {
        Some(_) => ImportQueueKind::ManualSeal,
        None => ImportQueueKind::AuraGrandpa,
    }
}

/// Chooses the sealing task for a configured sealing.
pub fn select_seal_task(sealing: Sealing) -> (task: SealTask)
    ensures
        task == seal_task_for(sealing),
{
    match sealing {
        Sealing::Manual => SealTask::ManualSeal,
        Sealing::Instant => SealTask::InstantSeal,
    }
}

/// Decides which services a full node runs: the import queue, GRANDPA
/// networking, offchain workers, the manual-seal command sink, block
/// authorship and the GRANDPA voter.
pub fn plan_full_node(s: &NodeSettings) -> (plan: FullNodePlan)
    ensures
        plan == full_node_plan(*s),
{
    let import_queue = select_import_queue(s.sealing);
    let offchain_workers = if s.offchain_worker_enabled {
        Some(OffchainWorkersPlan { is_validator: s.is_authority, enable_http_requests: true })
    } else {
        None
    };
    let authorship = if !s.is_authority {
        Authorship::Disabled
    } else {
        match s.sealing {
            Some(sealing) => Authorship::Seal(select_seal_task(sealing)),
            None => Authorship::Aura(
                AuraPlan {
                    force_authoring: s.force_authoring,
                    backoff_unfinalized_slack: AURA_BACKOFF_UNFINALIZED_SLACK,
                },
            ),
        }
    };
    let sealing_authority = s.is_authority && s.sealing.is_some();
    let grandpa_voter = if s.disable_grandpa || sealing_authority {
        None
    } else {
        Some(
            GrandpaVoterPlan {
                with_keystore: s.is_authority,
                gossip_duration_ms: GRANDPA_GOSSIP_DURATION_MS,
                justification_generation_period: GRANDPA_JUSTIFICATION_PERIOD,
                observer_enabled: false,
            },
        )
    };
    FullNodePlan {
        import_queue,
        grandpa_networking: s.sealing.is_none(),
        offchain_workers,
        rpc_command_sink: s.sealing.is_some(),
        command_channel_capacity: MANUAL_SEAL_COMMAND_CAPACITY,
        authorship,
        grandpa_voter,
    }
}

/// What the chain operations (import, export, revert, check) are built with.
#[derive(PartialEq, Eq, Structural, Clone, Copy, Debug)]
pub struct ChainOpsPlan {
    pub import_queue: ImportQueueKind,
    /// The keystore is replaced by one in memory.
    pub in_memory_keystore: bool,
}

pub open spec fn chain_ops_plan() -> ChainOpsPlan {
    ChainOpsPlan { import_queue: ImportQueueKind::AuraGrandpa, in_memory_keystore: true }
}

/// Chain operations use the Aura and GRANDPA import queue and an in-memory
/// keystore.
pub fn plan_chain_ops() -> (plan: ChainOpsPlan)
    ensures
        plan == chain_ops_plan(),
{
    ChainOpsPlan { import_queue: select_import_queue(None), in_memory_keystore: true }
}

/// The storage kind of the frontier (Ethereum mapping) database.
#[derive(PartialEq, Eq, Structural, Clone, Copy, Debug)]
pub enum FrontierBackendType {
    KeyValue,
    Sql,
}

/// The SQL backend settings of the Ethereum configuration.
#[derive(PartialEq, Eq, Structural, Clone, Copy, Debug)]
pub struct SqlBackendSettings {
    pub pool_size: u32,
    /// Operations before a query times out; zero means none.
    pub num_ops_timeout: u32,
    pub thread_count: u32,
    pub cache_size: u64,
}

/// How the SQLite frontier database is opened.
#[derive(PartialEq, Eq, Structural, Clone, Copy, Debug)]
pub struct SqliteBackendPlan {
    pub create_if_missing: bool,
    pub thread_count: u32,
    pub cache_size: u64,
    pub pool_size: u32,
    /// The query timeout in operations, if any.
    pub num_ops_timeout: Option<u32>,
}

/// Which frontier database the node opens.
#[derive(PartialEq, Eq, Structural, Clone, Copy, Debug)]
pub enum FrontierBackendPlan {
    /// The key-value database in the node's frontier directory.
    KeyValue,
    /// The SQLite database `frontier.db3` in the `sql` subdirectory.
    Sql(SqliteBackendPlan),
}

/// Where the SQLite frontier database lives inside the node's frontier
/// directory: the subdirectory, created if missing, and the database file in
/// it.
pub fn frontier_sql_location() -> (location: (&'static str, &'static str))
    ensures
        location.0@ == "sql"@,
        location.1@ == "frontier.db3"@,
{
    ("sql", "frontier.db3")
}

/// The components shared by the full node and the chain operations.
#[derive(PartialEq, Eq, Structural, Clone, Copy, Debug)]
pub struct PartialPlan {
    /// The telemetry worker and its buffer size, when telemetry is wanted.
    pub telemetry_worker_capacity: Option<usize>,
    pub grandpa_justification_period: u32,
    pub frontier_backend: FrontierBackendPlan,
}

/// Telemetry runs when the configuration has telemetry endpoints and they are
/// not empty; the argument is `None` without endpoints and otherwise whether
/// they are empty.
pub open spec fn telemetry_wanted(endpoints_empty: Option<bool>) -> bool {
    endpoints_empty == Some(false)
}

pub open spec fn frontier_backend_plan(
    kind: FrontierBackendType,
    sql: SqlBackendSettings,
) -> FrontierBackendPlan {
    match kind {
        FrontierBackendType::KeyValue => FrontierBackendPlan::KeyValue,
        FrontierBackendType::Sql => FrontierBackendPlan::Sql(
            SqliteBackendPlan {
                create_if_missing: true,
                thread_count: sql.thread_count,
                cache_size: sql.cache_size,
                pool_size: sql.pool_size,
                num_ops_timeout: if sql.num_ops_timeout == 0 {
                    None
                } else {
                    Some(sql.num_ops_timeout)
                },
            },
        ),
    }
}

pub open spec fn partial_plan(
    telemetry_endpoints_empty: Option<bool>,
    kind: FrontierBackendType,
    sql: SqlBackendSettings,
) -> PartialPlan {
    PartialPlan {
        telemetry_worker_capacity: if telemetry_wanted(telemetry_endpoints_empty) {
            Some(TELEMETRY_WORKER_CAPACITY)
        } else {
            None
        },
        grandpa_justification_period: GRANDPA_JUSTIFICATION_PERIOD,
        frontier_backend: frontier_backend_plan(kind, sql),
    }
}

/// Decides the shared components: telemetry, when the configuration has
/// endpoints and they are not empty (`telemetry_endpoints_empty` is `None`
/// without endpoints, else whether they are empty); GRANDPA's justification period; and the
/// frontier database, where a zero SQL timeout means no timeout.
pub fn plan_partial(
    telemetry_endpoints_empty: Option<bool>,
    kind: FrontierBackendType,
    sql: &SqlBackendSettings,
) -> (plan: PartialPlan)
    ensures
        plan == partial_plan(telemetry_endpoints_empty, kind, *sql),
{
    let telemetry_worker_capacity = match telemetry_endpoints_empty {
        Some(false) => Some(TELEMETRY_WORKER_CAPACITY),
        _ => None,
    };
    let frontier_backend = match kind {
        FrontierBackendType::KeyValue => FrontierBackendPlan::KeyValue,
        FrontierBackendType::Sql => {
            let num_ops_timeout = if sql.num_ops_timeout == 0 {
                None
            } else {
                Some(sql.num_ops_timeout)
            };
            FrontierBackendPlan::Sql(
                SqliteBackendPlan {
                    create_if_missing: true,
                    thread_count: sql.thread_count,
                    cache_size: sql.cache_size,
                    pool_size: sql.pool_size,
                    num_ops_timeout,
                },
            )
        },
    };
    PartialPlan {
        telemetry_worker_capacity,
        grandpa_justification_period: GRANDPA_JUSTIFICATION_PERIOD,
        frontier_backend,
    }
}

/// A node that seals its blocks imports with the manual-seal queue, runs no
/// GRANDPA networking and never produces blocks with Aura.
pub proof fn law_sealing_replaces_aura_and_grandpa(s: NodeSettings)
    requires
        s.sealing is Some,
    ensures
        full_node_plan(s).import_queue == ImportQueueKind::ManualSeal,
        !full_node_plan(s).grandpa_networking,
        !(full_node_plan(s).authorship is Aura),
{
}

/// A node without sealing imports with Aura and GRANDPA and offers GRANDPA
/// networking.
pub proof fn law_unsealed_node_uses_aura_and_grandpa(s: NodeSettings)
    requires
        s.sealing is None,
    ensures
        full_node_plan(s).import_queue == ImportQueueKind::AuraGrandpa,
        full_node_plan(s).grandpa_networking,
        s.is_authority ==> full_node_plan(s).authorship is Aura,
{
}

/// Only authorities author blocks, and an authority authors in exactly one
/// way: with the configured sealing, or with Aura when none is configured.
pub proof fn law_authorities_author_one_way(s: NodeSettings)
    ensures
        !s.is_authority <==> full_node_plan(s).authorship == Authorship::Disabled,
        s.is_authority && s.sealing == Some(Sealing::Manual) ==> full_node_plan(s).authorship
            == Authorship::Seal(SealTask::ManualSeal),
        s.is_authority && s.sealing == Some(Sealing::Instant) ==> full_node_plan(s).authorship
            == Authorship::Seal(SealTask::InstantSeal),
{
}

/// The RPC gets a command sink exactly when sealing is configured; the
/// commands are drained only by a manual-sealing authority, so on instant
/// sealing or on a non-authority the sink is never read.
pub proof fn law_command_sink_follows_sealing(s: NodeSettings)
    ensures
        full_node_plan(s).rpc_command_sink <==> s.sealing is Some,
        full_node_plan(s).authorship == Authorship::Seal(SealTask::ManualSeal) ==> full_node_plan(
            s,
        ).rpc_command_sink,
        s.sealing == Some(Sealing::Instant) ==> full_node_plan(s).authorship
            != Authorship::Seal(SealTask::ManualSeal),
{
}

/// The GRANDPA voter runs exactly when GRANDPA is enabled and the node is not
/// a sealing authority, and it holds the keystore only on an authority.
pub proof fn law_grandpa_voter(s: NodeSettings)
    ensures
        full_node_plan(s).grandpa_voter is Some <==> (!s.disable_grandpa && !(s.is_authority
            && s.sealing is Some)),
        full_node_plan(s).grandpa_voter matches Some(v) ==> v.with_keystore == s.is_authority,
{
}

/// Chain operations import blocks exactly as a full node without sealing.
pub proof fn law_chain_ops_import_like_unsealed_node(s: NodeSettings)
    requires
        s.sealing is None,
    ensures
        chain_ops_plan().import_queue == full_node_plan(s).import_queue,
{
}

/// The SQL frontier database has a query timeout exactly when a nonzero one
/// is configured, and the key-value one ignores the SQL settings.
pub proof fn law_sql_timeout_zero_means_none(kind: FrontierBackendType, sql: SqlBackendSettings)
    ensures
        kind == FrontierBackendType::KeyValue ==> frontier_backend_plan(kind, sql)
            == FrontierBackendPlan::KeyValue,
        kind == FrontierBackendType::Sql ==> (frontier_backend_plan(kind, sql) matches FrontierBackendPlan::Sql(p)
            && (p.num_ops_timeout is None <==> sql.num_ops_timeout == 0)),
{
}

/// An authority without sealing runs Aura exactly as configured: it forces
/// authorship only when the operator asked for it, and backs off after six
/// unfinalized blocks.
pub proof fn law_aura_follows_configuration(s: NodeSettings)
    requires
        s.is_authority,
        s.sealing is None,
    ensures
        full_node_plan(s).authorship == Authorship::Aura(
            AuraPlan { force_authoring: s.force_authoring, backoff_unfinalized_slack: 6 },
        ),
{
}

/// Offchain workers run exactly when they are enabled, whatever the sealing
/// and the role; they validate on an authority only and may make HTTP
/// requests.
pub proof fn law_offchain_workers_follow_configuration(s: NodeSettings)
    ensures
        full_node_plan(s).offchain_workers is Some <==> s.offchain_worker_enabled,
        s.offchain_worker_enabled ==> full_node_plan(s).offchain_workers == Some(
            OffchainWorkersPlan { is_validator: s.is_authority, enable_http_requests: true },
        ),
{
}

/// Whatever the settings, the manual-seal command channel holds 1000
/// commands, and a running GRANDPA voter gossips every 333 ms, generates
/// justifications every 512 blocks and is a full voter, not an observer.
pub proof fn law_full_node_constants(s: NodeSettings)
    ensures
        full_node_plan(s).command_channel_capacity == 1000,
        full_node_plan(s).grandpa_voter matches Some(v) ==> v.gossip_duration_ms == 333
            && v.justification_generation_period == 512 && !v.observer_enabled,
{
}

/// The SQL frontier database is opened with the configured settings
/// unchanged, created if missing, and with the configured query timeout when
/// it is nonzero; the key-value database is opened otherwise. Telemetry runs
/// exactly when non-empty endpoints are configured, with a buffer of 16, and
/// GRANDPA justifications are imported every 512 blocks.
pub proof fn law_partial_plan_follows_configuration(
    telemetry_endpoints_empty: Option<bool>,
    kind: FrontierBackendType,
    sql: SqlBackendSettings,
)
    ensures
        kind == FrontierBackendType::KeyValue ==> partial_plan(
            telemetry_endpoints_empty,
            kind,
            sql,
        ).frontier_backend == FrontierBackendPlan::KeyValue,
        kind == FrontierBackendType::Sql ==> partial_plan(
            telemetry_endpoints_empty,
            kind,
            sql,
        ).frontier_backend == FrontierBackendPlan::Sql(
            SqliteBackendPlan {
                create_if_missing: true,
                thread_count: sql.thread_count,
                cache_size: sql.cache_size,
                pool_size: sql.pool_size,
                num_ops_timeout: if sql.num_ops_timeout == 0 {
                    None
                } else {
                    Some(sql.num_ops_timeout)
                },
            },
        ),
        partial_plan(telemetry_endpoints_empty, kind, sql).telemetry_worker_capacity is Some
            <==> telemetry_endpoints_empty == Some(false),
        partial_plan(telemetry_endpoints_empty, kind, sql).telemetry_worker_capacity is Some
            ==> partial_plan(telemetry_endpoints_empty, kind, sql).telemetry_worker_capacity
            == Some(16usize),
        partial_plan(telemetry_endpoints_empty, kind, sql).grandpa_justification_period == 512,
{
}

/// Chain operations always use the Aura and GRANDPA import queue and an
/// in-memory keystore.
pub proof fn law_chain_ops_plan()
    ensures
        chain_ops_plan().import_queue == ImportQueueKind::AuraGrandpa,
        chain_ops_plan().in_memory_keystore,
{
}

} // verus!
