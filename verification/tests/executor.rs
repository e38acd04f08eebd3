use hetu::base::config_file::select_config_file;
use hetu::error::HetuError;
use hetu::policy::TaskSchedulingPolicy;
use hetu::query::config::{true_or_false, Config};
use hetu::query::executor::{plan_startup, startup, Cleanup, WorkDir};

fn config() -> Config {
    Config {
        config_file: String::new(),
        scheduler_host: "localhost".to_string(),
        scheduler_port: 50050,
        bind_host: "0.0.0.0".to_string(),
        bind_port: 50051,
        external_host: "localhost".to_string(),
        bind_grpc_port: 50052,
        work_dir: String::new(),
        concurrent_tasks: 4,
        task_scheduling_policy: "PullStaged".to_string(),
        executor_cleanup_enable: false,
        executor_cleanup_interval: 1800,
        executor_cleanup_ttl: 604800,
        mysql_handler_host: "127.0.0.1".to_string(),
        mysql_handler_port: 3307,
    }
}

#[test]
fn executor_registers_what_is_configured() {
    let plan = plan_startup(&config(), "id-1".to_string(), true).unwrap();
    assert_eq!(plan.registration.id, "id-1");
    assert_eq!(plan.registration.host, Some("localhost".to_string()));
    assert_eq!(plan.registration.port, 50051);
    assert_eq!(plan.registration.grpc_port, 50052);
    assert_eq!(plan.registration.task_slots, 4);
    assert_eq!(plan.address, "0.0.0.0:50051");
    assert_eq!(plan.scheduler_url, "http://localhost:50050");
    assert_eq!(plan.work_dir, WorkDir::Temporary);
    assert_eq!(plan.policy, TaskSchedulingPolicy::PullStaged);
    assert_eq!(plan.cleanup, None);
}

#[test]
fn executor_reads_work_dir_policy_and_cleanup() {
    let mut conf = config();
    conf.work_dir = "/var/hetu".to_string();
    conf.task_scheduling_policy = "PushStaged".to_string();
    conf.executor_cleanup_enable = true;
    let plan = plan_startup(&conf, String::new(), true).unwrap();
    assert_eq!(plan.work_dir, WorkDir::Configured("/var/hetu".to_string()));
    assert_eq!(plan.policy, TaskSchedulingPolicy::PushStaged);
    assert_eq!(
        plan.cleanup,
        Some(Cleanup {
            interval_seconds: 1800,
            ttl_seconds: 604800
        })
    );
}

#[test]
fn large_numbers_are_capped() {
    let mut conf = config();
    conf.executor_cleanup_enable = true;
    conf.executor_cleanup_ttl = u64::MAX;
    conf.concurrent_tasks = usize::MAX;
    let plan = plan_startup(&conf, String::new(), true).unwrap();
    assert_eq!(plan.cleanup.unwrap().ttl_seconds, i64::MAX);
    assert_eq!(plan.registration.task_slots, u32::MAX);
    let ttl = |configured: u64| {
        let mut conf = config();
        conf.executor_cleanup_enable = true;
        conf.executor_cleanup_ttl = configured;
        plan_startup(&conf, String::new(), true)
            .unwrap()
            .cleanup
            .unwrap()
            .ttl_seconds
    };
    assert_eq!(ttl(1 << 63), i64::MAX);
    assert_eq!(ttl((1 << 63) - 1), i64::MAX);
    assert_eq!(ttl((1 << 63) - 2), i64::MAX - 1);
    assert_eq!(ttl(0), 0);
    conf.concurrent_tasks = u32::MAX as usize;
    assert_eq!(
        plan_startup(&conf, String::new(), true).unwrap().registration.task_slots,
        u32::MAX
    );
    conf.concurrent_tasks = u32::MAX as usize - 1;
    assert_eq!(
        plan_startup(&conf, String::new(), true).unwrap().registration.task_slots,
        u32::MAX - 1
    );
}

#[test]
fn executor_id_is_made_for_the_process() {
    let first = startup(&config()).unwrap();
    let second = startup(&config()).unwrap();
    assert_eq!(first.registration.id.chars().count(), 36);
    assert_eq!(second.registration.id.chars().count(), 36);
    assert_ne!(first.registration.id, second.registration.id);
    assert_eq!(first.address, "0.0.0.0:50051");
}

#[test]
fn executor_refuses_an_address_that_is_no_literal() {
    let mut conf = config();
    conf.bind_host = "localhost".to_string();
    assert_eq!(
        startup(&conf).unwrap_err(),
        HetuError::Internal("Could not parse address: localhost:50051".to_string())
    );
    assert_eq!(
        plan_startup(&config(), "id".to_string(), false).unwrap_err(),
        HetuError::Internal("Could not parse address: 0.0.0.0:50051".to_string())
    );
    conf.bind_host = "[::1]".to_string();
    assert_eq!(startup(&conf).unwrap().address, "[::1]:50051");
}

#[test]
fn switch_is_true_only_for_true() {
    assert_eq!(true_or_false("true"), Ok(true));
    for other in ["false", "", "True", "TRUE", "1", "yes", " true"] {
        assert_eq!(true_or_false(other), Ok(false));
    }
}

#[test]
fn default_config_is_empty() {
    let conf = Config::default();
    assert_eq!(conf.bind_port, 0);
    assert_eq!(conf.scheduler_host, "");
    assert!(!conf.executor_cleanup_enable);
    assert_eq!(conf.clone(), conf);
    let scheduler = hetu::cloudsrv::config::Config::default();
    assert_eq!(scheduler.bind_port, 0);
    assert_eq!(scheduler.namespace, "");
    assert_eq!(scheduler.clone(), scheduler);
}

#[test]
fn config_file_comes_from_argument_then_environment() {
    assert_eq!(select_config_file("a.toml", Some("b.toml".to_string())), "a.toml");
    assert_eq!(select_config_file("a.toml", None), "a.toml");
    assert_eq!(select_config_file("", Some("b.toml".to_string())), "b.toml");
    assert_eq!(select_config_file("", Some(String::new())), "");
    assert_eq!(select_config_file("", None), "");
}
