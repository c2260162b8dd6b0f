use subtensor_node::executor::ExecutorDispatch;
use subtensor_node::service::{
    frontier_sql_location, plan_chain_ops, plan_full_node, plan_partial, select_import_queue, select_seal_task,
    AuraPlan, Authorship, FrontierBackendPlan, FrontierBackendType, GrandpaVoterPlan,
    ImportQueueKind, NodeSettings, OffchainWorkersPlan, SealTask, Sealing, SqlBackendSettings,
    SqliteBackendPlan, GRANDPA_JUSTIFICATION_PERIOD,
};

fn settings(sealing: Option<Sealing>, is_authority: bool) -> NodeSettings {
    NodeSettings {
        sealing,
        is_authority,
        offchain_worker_enabled: false,
        disable_grandpa: false,
        force_authoring: false,
    }
}

fn voter(with_keystore: bool) -> GrandpaVoterPlan {
    GrandpaVoterPlan {
        with_keystore,
        gossip_duration_ms: 333,
        justification_generation_period: 512,
        observer_enabled: false,
    }
}

#[test]
fn executor_dispatch_exists() {
    let _e = ExecutorDispatch;
}

#[test]
fn import_queue_follows_sealing() {
    assert_eq!(select_import_queue(None), ImportQueueKind::AuraGrandpa);
    assert_eq!(select_import_queue(Some(Sealing::Manual)), ImportQueueKind::ManualSeal);
    assert_eq!(select_import_queue(Some(Sealing::Instant)), ImportQueueKind::ManualSeal);
}

#[test]
fn seal_task_follows_sealing() {
    assert_eq!(select_seal_task(Sealing::Manual), SealTask::ManualSeal);
    assert_eq!(select_seal_task(Sealing::Instant), SealTask::InstantSeal);
}

#[test]
fn aura_authority_runs_aura_and_grandpa() {
    let mut s = settings(None, true);
    s.force_authoring = true;
    let p = plan_full_node(&s);
    assert_eq!(p.import_queue, ImportQueueKind::AuraGrandpa);
    assert!(p.grandpa_networking);
    assert!(!p.rpc_command_sink);
    assert_eq!(p.command_channel_capacity, 1000);
    assert_eq!(
        p.authorship,
        Authorship::Aura(AuraPlan { force_authoring: true, backoff_unfinalized_slack: 6 })
    );
    assert_eq!(p.grandpa_voter, Some(voter(true)));
    assert_eq!(p.offchain_workers, None);
}

#[test]
fn full_node_without_authority_only_votes_without_keystore() {
    let p = plan_full_node(&settings(None, false));
    assert_eq!(p.authorship, Authorship::Disabled);
    assert_eq!(p.grandpa_voter, Some(voter(false)));
}

#[test]
fn manual_seal_authority_runs_no_voter() {
    let p = plan_full_node(&settings(Some(Sealing::Manual), true));
    assert_eq!(p.import_queue, ImportQueueKind::ManualSeal);
    assert!(!p.grandpa_networking);
    assert!(p.rpc_command_sink);
    assert_eq!(p.authorship, Authorship::Seal(SealTask::ManualSeal));
    assert_eq!(p.grandpa_voter, None);
}

#[test]
fn instant_seal_authority_gets_unread_command_sink() {
    let p = plan_full_node(&settings(Some(Sealing::Instant), true));
    assert!(p.rpc_command_sink);
    assert_eq!(p.authorship, Authorship::Seal(SealTask::InstantSeal));
    assert_eq!(p.grandpa_voter, None);
}

#[test]
fn sealing_non_authority_still_runs_voter() {
    let p = plan_full_node(&settings(Some(Sealing::Manual), false));
    assert_eq!(p.authorship, Authorship::Disabled);
    assert!(!p.grandpa_networking);
    assert_eq!(p.grandpa_voter, Some(voter(false)));
}

#[test]
fn disabled_grandpa_runs_no_voter() {
    let mut s = settings(None, true);
    s.disable_grandpa = true;
    let p = plan_full_node(&s);
    assert_eq!(p.grandpa_voter, None);
    assert!(p.grandpa_networking);
}

#[test]
fn offchain_workers_follow_configuration() {
    let mut s = settings(None, true);
    s.offchain_worker_enabled = true;
    assert_eq!(
        plan_full_node(&s).offchain_workers,
        Some(OffchainWorkersPlan { is_validator: true, enable_http_requests: true })
    );
    s.is_authority = false;
    assert_eq!(
        plan_full_node(&s).offchain_workers,
        Some(OffchainWorkersPlan { is_validator: false, enable_http_requests: true })
    );
}

#[test]
fn chain_ops_use_aura_grandpa_queue() {
    let c = plan_chain_ops();
    assert_eq!(c.import_queue, ImportQueueKind::AuraGrandpa);
    assert!(c.in_memory_keystore);
    assert_eq!(c.import_queue, plan_full_node(&settings(None, true)).import_queue);
}

fn sql(timeout: u32) -> SqlBackendSettings {
    SqlBackendSettings { pool_size: 100, num_ops_timeout: timeout, thread_count: 4, cache_size: 209_715_200 }
}

#[test]
fn partial_with_key_value_backend_and_telemetry() {
    let p = plan_partial(Some(false), FrontierBackendType::KeyValue, &sql(10_000_000));
    assert_eq!(p.telemetry_worker_capacity, Some(16));
    assert_eq!(p.grandpa_justification_period, GRANDPA_JUSTIFICATION_PERIOD);
    assert_eq!(p.grandpa_justification_period, 512);
    assert_eq!(p.frontier_backend, FrontierBackendPlan::KeyValue);
}

#[test]
fn partial_without_telemetry_endpoints() {
    assert_eq!(plan_partial(None, FrontierBackendType::KeyValue, &sql(1)).telemetry_worker_capacity, None);
    assert_eq!(plan_partial(Some(true), FrontierBackendType::KeyValue, &sql(1)).telemetry_worker_capacity, None);
}

#[test]
fn partial_with_sql_backend() {
    let p = plan_partial(None, FrontierBackendType::Sql, &sql(10_000_000));
    assert_eq!(
        p.frontier_backend,
        FrontierBackendPlan::Sql(SqliteBackendPlan {
            create_if_missing: true,
            thread_count: 4,
            cache_size: 209_715_200,
            pool_size: 100,
            num_ops_timeout: Some(10_000_000),
        })
    );
}

#[test]
fn partial_sql_zero_timeout_means_none() {
    let p = plan_partial(None, FrontierBackendType::Sql, &sql(0));
    match p.frontier_backend {
        FrontierBackendPlan::Sql(s) => assert_eq!(s.num_ops_timeout, None),
        FrontierBackendPlan::KeyValue => panic!("expected the sql backend"),
    }
}

#[test]
fn sqlite_database_location() {
    assert_eq!(frontier_sql_location(), ("sql", "frontier.db3"));
}
