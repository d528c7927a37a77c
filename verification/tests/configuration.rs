use machine_core::adapter::{MachineAdapter, MachineState};
use machine_core::config::ConfigBuilder;
use machine_core::executor::{ExecutorFactory, ExecutorPool, ForwarderFactory, RuntimeDefaults};

#[test]
fn config_builder_overrides() {
    let builder = ConfigBuilder::default()
        .with_config_env_var("MY_ENV")
        .with_config_env_prefix("app")
        .with_config_env_separator("::")
        .with_config_folder_path("./conf/")
        .with_config_toml_suffix(".tml")
        .with_config_json_suffix(".jsn")
        .with_config_default_name("base");
    assert_eq!("MY_ENV", builder.config.config_env_var);
    assert_eq!("app", builder.config.config_env_prefix);
    assert_eq!("::", builder.config.config_env_separator);
    assert_eq!("./conf/", builder.config.config_folder_path);
    assert_eq!(".tml", builder.config.config_toml_suffix);
    assert_eq!(".jsn", builder.config.config_json_suffix);
    assert_eq!("base", builder.config.config_default_name);
    // Untouched fields keep their stock values.
    assert_eq!("Production", builder.config.config_env_default);
    assert_eq!("SERVER_FLAVOR", builder.config.config_env_var_server_flavor);
}

#[test]
fn merge_plan_without_flavor() {
    let builder = ConfigBuilder::default();
    let plan = builder.merge_plan("Development", "");
    assert_eq!(4, plan.len());
    let names: Vec<&str> = plan.iter().map(|s| s.name.as_str()).collect();
    assert_eq!(vec!["default", "default", "Development", "Development"], names);
    let suffixes: Vec<&str> = plan.iter().map(|s| s.suffix.as_str()).collect();
    assert_eq!(vec![".toml", ".json", ".toml", ".json"], suffixes);
    for step in &plan {
        assert_eq!("./config/", step.folder);
        assert!(step.flavor.is_none());
    }
}

#[test]
fn merge_plan_with_flavor() {
    let builder = ConfigBuilder::default();
    let plan = builder.merge_plan("Stage", "echo");
    assert_eq!(8, plan.len());
    for (i, step) in plan.iter().enumerate() {
        assert_eq!("./config/", step.folder);
        let expected_name = if i % 4 < 2 { "default" } else { "Stage" };
        assert_eq!(expected_name, step.name);
        let expected_suffix = if i % 2 == 0 { ".toml" } else { ".json" };
        assert_eq!(expected_suffix, step.suffix);
        if i < 4 {
            assert!(step.flavor.is_none());
        } else {
            assert_eq!(Some("echo".to_string()), step.flavor);
        }
    }
}

#[test]
fn executor_factory_builders() {
    let factory = ExecutorFactory::default();
    assert_eq!(4, factory.thread_count);
    assert!(factory.bind_executor_to_thread);
    assert_eq!(4, factory.executor_count());

    let factory = factory.thread_count(8).bind_executor_to_thread(false);
    assert_eq!(8, factory.thread_count);
    assert!(!factory.bind_executor_to_thread);
    assert_eq!(1, factory.executor_count());
}

#[test]
fn forwarder_factory_builders() {
    let factory = ForwarderFactory::default()
        .forwarder_count(10_000)
        .message_count(20_000)
        .queue_size(1_000)
        .spawn_send(true);
    assert_eq!(10_000, factory.forwarder_count);
    assert_eq!(20_000, factory.message_count);
    assert_eq!(1_000, factory.queue_size);
    assert!(factory.spawn_send);
}

#[test]
fn executor_pool_round_robin() {
    let mut pool = ExecutorPool::new(3);
    assert_eq!(0, pool.get_executor());
    assert_eq!(1, pool.get_executor());
    assert_eq!(2, pool.get_executor());
    assert_eq!(0, pool.get_executor());
}

#[test]
fn runtime_defaults_set_and_get() {
    let mut defaults = RuntimeDefaults::default();
    assert_eq!(20, defaults.get_default_channel_max());
    assert_eq!(0, defaults.get_default_num_threads());
    assert_eq!(20, defaults.set_default_channel_max(1000));
    assert_eq!(1000, defaults.get_default_channel_max());
    assert_eq!(0, defaults.set_default_num_threads(4));
    assert_eq!(4, defaults.get_default_num_threads());
    // The two defaults are independent.
    assert_eq!(1000, defaults.get_default_channel_max());
}

#[test]
fn adapter_control_word() {
    let mut adapter = MachineAdapter::new();
    assert_eq!(MachineState::New, adapter.get_state());
    assert_eq!(0, adapter.get_key());
    assert_eq!(0, adapter.get_task_id());
    assert!(!adapter.is_dead());
    assert!(!adapter.is_running());
    assert!(!adapter.is_send_blocked());

    adapter.set_key(3);
    assert_eq!(3, adapter.get_key());
    adapter.set_task_id(11);
    assert_eq!(11, adapter.get_task_id());
    adapter.clear_task_id();
    assert_eq!(0, adapter.get_task_id());

    assert_eq!(
        Ok(MachineState::New),
        adapter.compare_and_exchange_state(MachineState::New, MachineState::Running)
    );
    assert!(adapter.is_running());
    assert_eq!(
        Err(MachineState::Running),
        adapter.compare_and_exchange_state(MachineState::New, MachineState::Dead)
    );
    adapter.set_state(MachineState::Dead);
    assert!(adapter.is_dead());
    assert_eq!(MachineState::Dead, adapter.clone_state());
}
