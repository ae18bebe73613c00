//! The shared server context: per-field locking, the process-lifetime
//! verification token, and the configuration it guards.

use nasomail::app::AppContext;
use nasomail::app::AppContextGuard;
use nasomail::config::Config;
use nasomail::config::ConfigSerializable;
use nasomail::data::AppData;

fn sample_config() -> Config {
    Config::new(
        "db.sqlite".to_string(),
        "schema.sql".to_string(),
        "0.0.0.0:1024".to_string(),
        "mail.test:1024".to_string(),
    )
}

#[test]
fn token_is_generated_at_construction_as_a_uuid() {
    let ctx: AppContext<u32> = AppContext::new(7, sample_config());
    let code = ctx.test_code().clone();
    assert_eq!(code.len(), 36);
    assert_eq!(code.chars().filter(|c| *c == '-').count(), 4);
    assert!(code.chars().all(|c| c == '-' || c.is_ascii_hexdigit()));
}

#[test]
fn token_reply_is_the_token_exactly_as_stored() {
    let ctx: AppContext<u32> = AppContext::new(7, sample_config());
    assert_eq!(&ctx.token_reply(), ctx.test_code());
}

#[test]
fn each_process_gets_its_own_token() {
    let a: AppContext<u32> = AppContext::new(1, sample_config());
    let b: AppContext<u32> = AppContext::new(2, sample_config());
    assert_ne!(a.test_code(), b.test_code());
}

#[test]
fn config_and_pool_are_independently_readable() {
    let ctx: AppContext<u32> = AppContext::new(41, sample_config());
    let pool_handle = ctx.pool();
    let cfg_handle = ctx.cfg();
    assert_eq!(*pool_handle.borrow(), 41);
    assert_eq!(cfg_handle.borrow().addr().as_str(), "0.0.0.0:1024");
    cfg_handle.release_read();
    pool_handle.release_read();
}

#[test]
fn writing_one_field_leaves_the_others_alone() {
    let ctx: AppContext<u32> = AppContext::new(41, sample_config());
    let (_old_pool, write_handle) = ctx.pool_mut();
    write_handle.release_write(42);

    let (mut cfg, cfg_write) = ctx.cfg_mut();
    cfg.set_pub_addr("elsewhere:9".to_string());
    cfg_write.release_write(cfg);

    let pool_handle = ctx.pool();
    assert_eq!(*pool_handle.borrow(), 42);
    pool_handle.release_read();
    let cfg_handle = ctx.cfg();
    assert_eq!(cfg_handle.borrow().pub_addr().as_str(), "elsewhere:9");
    assert_eq!(cfg_handle.borrow().addr().as_str(), "0.0.0.0:1024");
    cfg_handle.release_read();
}

#[test]
fn guard_hands_out_the_context() {
    let guard = AppContextGuard::new(AppContext::new(5u32, sample_config()));
    let handle = guard.ctx();
    assert_eq!(handle.borrow().test_code().len(), 36);
    handle.release_read();
}

#[test]
fn config_defaults_are_the_documented_ones() {
    let cfg = Config::default();
    assert_eq!(cfg.db_path().as_str(), "database.sqlite");
    assert_eq!(cfg.schema_path().as_str(), "sql/schema.sql");
    assert_eq!(cfg.addr().as_str(), "0.0.0.0:8080");
    assert_eq!(cfg.pub_addr().as_str(), "mail.example.com:8080");
}

#[test]
fn config_setters_replace_exactly_one_field() {
    let mut cfg = Config::default();
    cfg.set_db_path("elsewhere.sqlite".to_string());
    assert_eq!(cfg.db_path().as_str(), "elsewhere.sqlite");
    assert_eq!(cfg.schema_path().as_str(), "sql/schema.sql");
    cfg.set_schema_path("s.sql".to_string());
    cfg.set_addr("127.0.0.1:1".to_string());
    cfg.set_pub_addr("p:2".to_string());
    assert_eq!(cfg.schema_path().as_str(), "s.sql");
    assert_eq!(cfg.addr().as_str(), "127.0.0.1:1");
    assert_eq!(cfg.pub_addr().as_str(), "p:2");
    *cfg.addr_mut() = "127.0.0.1:3".to_string();
    assert_eq!(cfg.addr().as_str(), "127.0.0.1:3");
}

#[test]
fn config_round_trips_through_its_storable_form() {
    let ser = ConfigSerializable::from_cfg(&sample_config());
    assert_eq!(ser.db_path, "db.sqlite");
    assert_eq!(ser.pub_addr, "mail.test:1024");
    let cfg = Config::from_ser(ser);
    assert_eq!(cfg.db_path().as_str(), "db.sqlite");
    assert_eq!(cfg.schema_path().as_str(), "schema.sql");
    assert_eq!(cfg.addr().as_str(), "0.0.0.0:1024");
    assert_eq!(cfg.pub_addr().as_str(), "mail.test:1024");
}

#[test]
fn app_data_holds_the_server_address() {
    let mut data = AppData::new("srv:1".to_string());
    assert_eq!(data.server_addr(), "srv:1");
    data.set_server_addr("srv:2".to_string());
    assert_eq!(data.server_addr(), "srv:2");
    data.server_addr_mut().push('3');
    assert_eq!(data.server_addr(), "srv:23");
    assert_eq!(AppData::default().server_addr(), "");
}
