use std::sync::Arc;

use sqlx::postgres::{PgConnectOptions, PgPoolOptions};
use sqlx::PgPool;
use sqlx_pg_fairing::config::{LogLevel, SqlxPostgresConfig};
use sqlx_pg_fairing::fairing::{ConnectSettings, IgniteAction, SqlxPostgresFairing};
use sqlx_pg_fairing::pool::{SQLxPostgres, SQLxPostgresPool};
use sqlx_pg_fairing::registry::PoolRegistry;

fn unreachable_config() -> SqlxPostgresConfig {
    SqlxPostgresConfig::default()
        .with_database("shop")
        .with_username("clerk")
        .with_password("secret")
        .with_host("unreachable.invalid")
        .with_port(1)
        .set_max_connections(0)
        .with_loglevel(LogLevel::Info)
}

#[test]
fn new_registry_has_no_pool() {
    let reg: PoolRegistry<Arc<u32>> = PoolRegistry::new();
    assert!(matches!(reg, PoolRegistry::Unconfigured));
    assert!(!reg.is_ready());
    assert!(reg.extract().is_none());
}

#[test]
fn ignite_without_pool_asks_to_connect_with_config() {
    let fairing: SqlxPostgresFairing<Arc<u32>> = SqlxPostgresFairing::new(unreachable_config(), None);
    let mut reg = PoolRegistry::new();
    let action = reg.ignite(&fairing);
    assert!(matches!(reg, PoolRegistry::Attaching));
    match action {
        IgniteAction::Connect(s) => {
            assert_eq!(s.database, "shop");
            assert_eq!(s.username, "clerk");
            assert_eq!(s.password, "secret");
            assert_eq!(s.host, "unreachable.invalid");
            assert_eq!(s.port, 1);
            assert_eq!(s.max_connections, 1);
            assert_eq!(s.log_level, LogLevel::Info);
        }
        IgniteAction::Nothing => panic!("expected a connection attempt"),
    }
}

#[test]
fn connect_settings_copy_the_config() {
    let c = unreachable_config();
    let s = ConnectSettings::from_config(&c);
    assert_eq!(s.host, c.host());
    assert_eq!(s.database, c.database());
    assert_eq!(s.max_connections, c.max_connections());
}

#[test]
fn unreachable_host_leaves_first_request_without_pool() {
    let fairing: SqlxPostgresFairing<Arc<u32>> = SqlxPostgresFairing::new(unreachable_config(), None);
    let mut reg = PoolRegistry::new();
    assert!(matches!(reg.ignite(&fairing), IgniteAction::Connect(_)));
    reg.connect_finished(None);
    assert!(matches!(reg, PoolRegistry::Degraded));
    assert!(!reg.is_ready());
    assert!(reg.extract().is_none());
}

#[test]
fn failed_open_stays_without_pool() {
    let fairing: SqlxPostgresFairing<Arc<u32>> = SqlxPostgresFairing::new(unreachable_config(), None);
    let mut reg = PoolRegistry::new();
    reg.ignite(&fairing);
    reg.connect_finished(None);
    for _ in 0..100 {
        assert!(reg.extract().is_none());
    }
    reg.connect_finished(Some(Arc::new(3)));
    let injected = SqlxPostgresFairing::new(SqlxPostgresConfig::default(), Some(Arc::new(4)));
    assert!(matches!(reg.ignite(&injected), IgniteAction::Nothing));
    assert!(matches!(reg, PoolRegistry::Degraded));
    assert!(reg.extract().is_none());
}

#[test]
fn injected_pool_is_adopted_without_connecting() {
    let pool = Arc::new(17u32);
    let fairing = SqlxPostgresFairing::new(unreachable_config(), Some(pool.clone()));
    let mut reg = PoolRegistry::new();
    assert!(matches!(reg.ignite(&fairing), IgniteAction::Nothing));
    assert!(reg.is_ready());
    match &reg {
        PoolRegistry::Ready(p) => assert!(Arc::ptr_eq(&p.client, &pool)),
        _ => panic!("expected a registered pool"),
    }
}

#[test]
fn successful_open_makes_registry_ready() {
    let pool = Arc::new(5u32);
    let fairing: SqlxPostgresFairing<Arc<u32>> = SqlxPostgresFairing::new(SqlxPostgresConfig::default(), None);
    let mut reg = PoolRegistry::new();
    reg.ignite(&fairing);
    reg.connect_finished(Some(pool.clone()));
    assert!(reg.is_ready());
    let token = reg.extract().expect("a handle");
    assert!(Arc::ptr_eq(&token.poll, &pool));
}

#[test]
fn every_request_shares_the_registered_pool() {
    let pool = Arc::new(9u32);
    let fairing: SqlxPostgresFairing<Arc<u32>> = SqlxPostgresFairing::new(SqlxPostgresConfig::default(), None);
    let mut reg = PoolRegistry::new();
    reg.ignite(&fairing);
    reg.connect_finished(Some(pool.clone()));
    let tokens: Vec<SQLxPostgres<Arc<u32>>> = (0..8).map(|_| reg.extract().unwrap()).collect();
    for t in &tokens {
        assert!(Arc::ptr_eq(&t.poll, &pool));
    }
    assert_eq!(Arc::strong_count(&pool), 2 + tokens.len());
}

#[test]
fn second_ignite_changes_nothing() {
    let first = Arc::new(1u32);
    let mut reg = PoolRegistry::new();
    reg.ignite(&SqlxPostgresFairing::new(SqlxPostgresConfig::default(), Some(first.clone())));
    let again: SqlxPostgresFairing<Arc<u32>> = SqlxPostgresFairing::new(SqlxPostgresConfig::default(), None);
    assert!(matches!(reg.ignite(&again), IgniteAction::Nothing));
    assert!(Arc::ptr_eq(&reg.extract().unwrap().poll, &first));
}

#[test]
fn connect_outcome_before_ignite_is_ignored() {
    let mut reg = PoolRegistry::new();
    reg.connect_finished(Some(Arc::new(2u32)));
    assert!(matches!(reg, PoolRegistry::Unconfigured));
    reg.connect_finished(None);
    assert!(matches!(reg, PoolRegistry::Unconfigured));
}

#[test]
fn registered_pool_wraps_handle() {
    let pool = Arc::new(8u32);
    let reg = SQLxPostgresPool::new(pool.clone());
    assert!(Arc::ptr_eq(&reg.client, &pool));
}

#[test]
fn default_fairing_connects_with_default_config() {
    let fairing: SqlxPostgresFairing<Arc<u32>> = SqlxPostgresFairing::default();
    assert!(fairing.injected_pool().is_none());
    assert_eq!(fairing.config().host(), "localhost");
    let mut reg = PoolRegistry::new();
    match reg.ignite(&fairing) {
        IgniteAction::Connect(s) => {
            assert_eq!(s.host, "localhost");
            assert_eq!(s.port, 5432);
            assert_eq!(s.max_connections, 5);
            assert_eq!(s.log_level, LogLevel::Debug);
        }
        IgniteAction::Nothing => panic!("expected a connection attempt"),
    }
}

#[test]
fn pg_pool_handles_share_one_pool() {
    let rt = tokio::runtime::Runtime::new().unwrap();
    let _guard = rt.enter();
    let opts = PgConnectOptions::new().host("unreachable.invalid").port(1);
    let pool: PgPool = PgPoolOptions::new().max_connections(1).connect_lazy_with(opts);
    let fairing = SqlxPostgresFairing::new(SqlxPostgresConfig::default(), Some(pool));
    let mut reg = PoolRegistry::new();
    assert!(matches!(reg.ignite(&fairing), IgniteAction::Nothing));
    let a = reg.extract().unwrap();
    let b = reg.extract().unwrap();
    assert!(!b.poll.is_closed());
    rt.block_on(a.poll.close());
    assert!(b.poll.is_closed());
}
