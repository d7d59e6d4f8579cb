use druid_garden_os::error::{Error, ErrorKind};
use druid_garden_os::models::plugins::{AddPlugin, Plugin, PluginType};
use druid_garden_os::plugins::runtime::{
    container_status, container_stop_result, tagged, task_status, task_stop_result,
    ContainerSummary, StartAction, StatusQuery, StopAction, TaskOutcome,
};
use druid_garden_os::plugins::{PluginManager, PluginStatus, RuntimeMetadata};

fn plugin(name: &str, plugin_type: PluginType) -> Plugin {
    Plugin::from_add(
        AddPlugin {
            label: name.to_string(),
            name: name.to_string(),
            enabled: 1,
            plugin_type,
            repo: "repo".to_string(),
            tag: "tag".to_string(),
            version: "1.0.0".to_string(),
            source: "image".to_string(),
            run_command: None,
        },
        0,
    )
}

fn registry(rows: Vec<Plugin>) -> PluginManager {
    PluginManager::new(rows, "./plugins".to_string(), 1000)
}

#[test]
fn start_twice_succeeds_once() {
    for plugin_type in [PluginType::Docker, PluginType::File] {
        let tool = plugin("tool", plugin_type);
        let mut manager = registry(vec![tool.duplicate()]);
        assert!(manager.start(&tool, 1).is_ok());
        match manager.start(&tool, 2) {
            Ok(_) => panic!("the second start must be refused"),
            Err(e) => {
                assert_eq!(e.kind(), ErrorKind::AlreadyExists);
                assert_eq!(e.to_string(), "Plugin Already Running");
            }
        }
    }
}

#[test]
fn start_after_stop_succeeds_again() {
    let tool = plugin("tool", PluginType::Docker);
    let mut manager = registry(vec![tool.duplicate()]);
    assert!(matches!(manager.start(&tool, 1), Ok(StartAction::LaunchContainer)));
    assert!(matches!(manager.stop(&tool), Ok(StopAction::StopContainer)));
    assert!(matches!(manager.start(&tool, 2), Ok(StartAction::LaunchContainer)));
}

#[test]
fn many_starts_yield_one_success() {
    let tool = plugin("tool", PluginType::File);
    let mut manager = registry(vec![tool.duplicate()]);
    let mut accepted = 0;
    let mut refused = 0;
    for attempt in 0..25 {
        match manager.start(&tool, attempt) {
            Ok(action) => {
                assert_eq!(action, StartAction::LaunchFile);
                accepted += 1;
            }
            Err(e) => {
                assert_eq!(e.kind(), ErrorKind::AlreadyExists);
                refused += 1;
            }
        }
    }
    assert_eq!(accepted, 1);
    assert_eq!(refused, 24);
    match manager.status(&tool) {
        Ok(StatusQuery::Task(metadata)) => assert_eq!(metadata.started, 0),
        _ => panic!("the plugin has one runtime entry, made by the first start"),
    }
}

#[test]
fn start_goes_by_the_type_of_the_plugin() {
    let mut manager = registry(vec![]);
    assert!(matches!(
        manager.start(&plugin("a", PluginType::Docker), 1),
        Ok(StartAction::LaunchContainer)
    ));
    assert!(matches!(manager.start(&plugin("b", PluginType::File), 1), Ok(StartAction::LaunchFile)));
    assert!(matches!(manager.start(&plugin("c", PluginType::BuiltIn), 1), Ok(StartAction::Nothing)));
    assert!(matches!(manager.start(&plugin("d", PluginType::Invalid), 1), Ok(StartAction::Nothing)));
    match manager.start(&plugin("e", PluginType::RustProject), 1) {
        Ok(_) => panic!("Rust projects are not supported"),
        Err(e) => assert_eq!(e.kind(), ErrorKind::Unsupported),
    }
    assert!(matches!(manager.stop(&plugin("c", PluginType::BuiltIn)), Ok(StopAction::NotRunning)));
    assert!(matches!(manager.stop(&plugin("d", PluginType::Invalid)), Ok(StopAction::NotRunning)));
    assert!(matches!(manager.stop(&plugin("e", PluginType::RustProject)), Ok(StopAction::NotRunning)));
    assert!(matches!(manager.start(&plugin("d", PluginType::Invalid), 2), Ok(StartAction::Nothing)));
}

#[test]
fn stop_without_entry_returns_not_running() {
    let tool = plugin("tool", PluginType::File);
    let mut manager = registry(vec![tool.duplicate()]);
    for _ in 0..3 {
        assert!(matches!(manager.stop(&tool), Ok(StopAction::NotRunning)));
    }
    assert!(matches!(manager.stop(&plugin("unknown", PluginType::Docker)), Ok(StopAction::NotRunning)));
}

#[test]
fn stop_takes_the_entry_out() {
    let tool = plugin("tool", PluginType::File);
    let mut manager = registry(vec![tool.duplicate()]);
    assert!(manager.start(&tool, 1).is_ok());
    assert!(matches!(manager.stop(&tool), Ok(StopAction::StopTask)));
    assert!(matches!(manager.stop(&tool), Ok(StopAction::NotRunning)));
    assert!(matches!(
        manager.status(&tool),
        Ok(StatusQuery::Known(PluginStatus { running: false, should_be_running: false, started: None }))
    ));
}

#[test]
fn builtins_run_and_cannot_be_started_or_stopped() {
    let mut manager = registry(vec![]);
    for name in ["file_manager", "disk_manager", "system_monitor", "farmer_manager"] {
        let builtin = plugin(name, PluginType::BuiltIn);
        for _ in 0..2 {
            match manager.start(&builtin, 5) {
                Ok(_) => panic!("a built-in cannot be started"),
                Err(e) => assert_eq!(e.kind(), ErrorKind::AlreadyExists),
            }
            match manager.stop(&builtin) {
                Ok(_) => panic!("a built-in cannot be stopped"),
                Err(e) => {
                    assert_eq!(e.kind(), ErrorKind::PermissionDenied);
                    assert_eq!(e.to_string(), "Built In Plugins Cant Be Stopped");
                }
            }
            assert!(matches!(
                manager.status(&builtin),
                Ok(StatusQuery::Known(PluginStatus {
                    running: true,
                    should_be_running: true,
                    started: Some(1000)
                }))
            ));
        }
    }
}

#[test]
fn status_of_an_unknown_name_is_not_found() {
    let manager = registry(vec![]);
    match manager.status(&plugin("ghost", PluginType::File)) {
        Ok(_) => panic!("an unknown name has no status"),
        Err(e) => {
            assert_eq!(e.kind(), ErrorKind::NotFound);
            assert_eq!(e.to_string(), "Plugin Does Not Exist");
        }
    }
}

#[test]
fn status_of_a_started_plugin_asks_the_backend() {
    let container = plugin("box", PluginType::Docker);
    let file = plugin("tool", PluginType::File);
    let mut manager = registry(vec![container.duplicate(), file.duplicate()]);
    assert!(manager.start(&container, 11).is_ok());
    assert!(manager.start(&file, 12).is_ok());
    assert!(matches!(
        manager.status(&container),
        Ok(StatusQuery::Container(RuntimeMetadata { run: Some(true), has_task: false, started: 11 }))
    ));
    assert!(matches!(
        manager.status(&file),
        Ok(StatusQuery::Task(RuntimeMetadata { run: Some(true), has_task: true, started: 12 }))
    ));
}

#[test]
fn abandon_start_leaves_no_entry() {
    let container = plugin("box", PluginType::Docker);
    let mut manager = registry(vec![container.duplicate()]);
    assert!(manager.start(&container, 1).is_ok());
    manager.abandon_start(&container);
    assert!(matches!(
        manager.status(&container),
        Ok(StatusQuery::Known(PluginStatus { running: false, should_be_running: false, started: None }))
    ));
    assert!(matches!(manager.start(&container, 2), Ok(StartAction::LaunchContainer)));
    let builtin = plugin("file_manager", PluginType::BuiltIn);
    manager.abandon_start(&builtin);
    assert!(matches!(manager.start(&builtin, 3), Err(e) if e.kind == ErrorKind::AlreadyExists));
}

#[test]
fn container_status_goes_by_the_first_container() {
    let metadata = RuntimeMetadata { run: Some(true), has_task: false, started: 50 };
    let none: Vec<ContainerSummary> = vec![];
    assert_eq!(
        container_status(&metadata, 1, Ok(none)).ok(),
        Some(PluginStatus { running: false, should_be_running: false, started: None })
    );
    let running = vec![ContainerSummary { state: Some("running".to_string()) }];
    assert_eq!(
        container_status(&metadata, 1, Ok(running)).ok(),
        Some(PluginStatus { running: true, should_be_running: true, started: Some(50) })
    );
    for state in ["exited", "Exited", "EXITED"] {
        let exited = vec![
            ContainerSummary { state: Some(state.to_string()) },
            ContainerSummary { state: Some("running".to_string()) },
        ];
        assert_eq!(
            container_status(&metadata, 1, Ok(exited)).ok(),
            Some(PluginStatus { running: false, should_be_running: true, started: Some(50) })
        );
    }
    let unknown = vec![ContainerSummary { state: None }];
    assert_eq!(
        container_status(&metadata, 1, Ok(unknown)).ok(),
        Some(PluginStatus { running: true, should_be_running: true, started: Some(50) })
    );
}

#[test]
fn should_be_running_falls_back_to_enabled() {
    let silent = RuntimeMetadata { run: None, has_task: true, started: 7 };
    assert!(task_status(&silent, 1, false).should_be_running);
    assert!(!task_status(&silent, 0, false).should_be_running);
    assert!(!task_status(&silent, -1, false).should_be_running);
    let halted = RuntimeMetadata { run: Some(false), has_task: true, started: 7 };
    assert!(!task_status(&halted, 1, false).should_be_running);
    let listed = vec![ContainerSummary { state: Some("created".to_string()) }];
    assert_eq!(
        container_status(&silent, 0, Ok(listed)).ok(),
        Some(PluginStatus { running: true, should_be_running: false, started: Some(7) })
    );
}

#[test]
fn container_status_hands_a_failed_listing_back() {
    let metadata = RuntimeMetadata { run: Some(true), has_task: false, started: 50 };
    let failure = Error::new(ErrorKind::NotFound, "socket missing".to_string());
    match container_status(&metadata, 1, Err(failure)) {
        Ok(_) => panic!("a failed listing gives no status"),
        Err(e) => {
            assert_eq!(e.kind(), ErrorKind::Other);
            assert_eq!(e.to_string(), "Failed to Fetch Plugin Status: socket missing");
        }
    }
}

#[test]
fn task_status_runs_until_the_task_has_finished() {
    let metadata = RuntimeMetadata { run: Some(true), has_task: true, started: 3 };
    assert_eq!(
        task_status(&metadata, 1, false),
        PluginStatus { running: true, should_be_running: true, started: Some(3) }
    );
    assert_eq!(
        task_status(&metadata, 1, true),
        PluginStatus { running: false, should_be_running: true, started: Some(3) }
    );
    let without = RuntimeMetadata { run: Some(true), has_task: false, started: 3 };
    assert!(!task_status(&without, 1, false).running);
}

#[test]
fn container_stop_surfaces_the_first_failure() {
    assert!(matches!(container_stop_result(Ok(()), Ok(())), Ok(true)));
    let stop = Error::new(ErrorKind::NotFound, "no such container".to_string());
    let remove = Error::new(ErrorKind::PermissionDenied, "in use".to_string());
    match container_stop_result(Err(stop.clone()), Err(remove.clone())) {
        Ok(_) => panic!("a failed stop must be reported"),
        Err(e) => {
            assert_eq!(e.kind(), ErrorKind::NotFound);
            assert_eq!(e.to_string(), "Failed to stop docker container: no such container");
        }
    }
    match container_stop_result(Err(stop), Ok(())) {
        Ok(_) => panic!("a failed stop must be reported"),
        Err(e) => assert_eq!(e.kind(), ErrorKind::NotFound),
    }
    match container_stop_result(Ok(()), Err(remove)) {
        Ok(_) => panic!("a failed removal must be reported"),
        Err(e) => {
            assert_eq!(e.kind(), ErrorKind::PermissionDenied);
            assert_eq!(e.to_string(), "Failed to remove docker container: in use");
        }
    }
}

#[test]
fn task_stop_forgives_join_errors_only() {
    assert!(matches!(task_stop_result(TaskOutcome::Finished), Ok(true)));
    assert!(matches!(task_stop_result(TaskOutcome::JoinFailed("cancelled".to_string())), Ok(true)));
    let failure = Error::new(ErrorKind::InvalidData, "bad exit".to_string());
    match task_stop_result(TaskOutcome::Failed(failure)) {
        Ok(_) => panic!("an error of the task must be reported"),
        Err(e) => {
            assert_eq!(e.kind(), ErrorKind::InvalidData);
            assert_eq!(e.to_string(), "Failed in plugin: bad exit");
        }
    }
}

#[test]
fn tagged_keeps_the_kind() {
    let cause = Error::new(ErrorKind::Unsupported, "cause".to_string());
    let out = tagged("label: ", &cause);
    assert_eq!(out.kind(), ErrorKind::Unsupported);
    assert_eq!(out.to_string(), "label: cause");
}

#[test]
fn errors_carry_kind_and_message() {
    let e = Error::new(ErrorKind::InvalidInput, "bad".to_string());
    assert_eq!(e.kind(), ErrorKind::InvalidInput);
    assert_eq!(e.to_string(), "bad");
    let o = Error::other("worse".to_string());
    assert_eq!(o.kind(), ErrorKind::Other);
    assert_eq!(o.to_string(), "worse");
}
