use host_shell::resources::{ResourceEntry, ResourceTable};
use host_shell::sidecar::{conclude, launch, plan, LaunchError, SidecarSpec, SpawnRequest};
use host_shell::supervisor::{LaunchAction, LaunchEvent, LaunchState, Supervisor};

const LINUX: &str = "x86_64-unknown-linux-gnu";
const MAC: &str = "aarch64-apple-darwin";
const WINDOWS: &str = "x86_64-pc-windows-msvc";

fn strings(items: &[&str]) -> Vec<String> {
    items.iter().map(|item| item.to_string()).collect()
}

fn packaged() -> ResourceTable {
    let mut table = ResourceTable::new();
    table.add(ResourceEntry::new("headlamp-server", LINUX, "/opt/app/headlamp-server"));
    table.add(ResourceEntry::new("headlamp-server", MAC, "/Applications/app/headlamp-server"));
    table.add(ResourceEntry::new("helper", LINUX, "/opt/app/helper"));
    table
}

#[test]
fn bundled_server_has_the_fixed_binary_and_arguments() {
    let spec = SidecarSpec::bundled_server();
    assert_eq!(spec.binary(), "headlamp-server");
    assert_eq!(spec.args(), &strings(&["-dev", "-enable-dynamic-clusters"]));
    assert_eq!(
        spec,
        SidecarSpec::new("headlamp-server", strings(&["-dev", "-enable-dynamic-clusters"]))
    );
}

#[test]
fn spec_keeps_its_arguments_as_given() {
    let args = strings(&["--flag", "", "$HOME", "a b", "*", "--flag"]);
    let spec = SidecarSpec::new("tool", args.clone());
    assert_eq!(spec.binary(), "tool");
    assert_eq!(spec.args(), &args);
    let request = spec.request("/bin/tool".to_string());
    assert_eq!(request.program(), "/bin/tool");
    assert_eq!(request.args(), &args);
}

#[test]
fn resolve_finds_the_entry_for_the_platform() {
    let table = packaged();
    assert_eq!(table.len(), 3);
    assert_eq!(
        table.resolve("headlamp-server", LINUX),
        Some("/opt/app/headlamp-server".to_string())
    );
    assert_eq!(
        table.resolve("headlamp-server", MAC),
        Some("/Applications/app/headlamp-server".to_string())
    );
    assert_eq!(table.resolve("helper", LINUX), Some("/opt/app/helper".to_string()));
}

#[test]
fn resolve_fails_for_an_unknown_identifier() {
    let table = packaged();
    assert_eq!(table.resolve("missing", LINUX), None);
    assert_eq!(table.resolve("", LINUX), None);
    assert_eq!(table.resolve("headlamp", LINUX), None);
    assert_eq!(ResourceTable::new().resolve("headlamp-server", LINUX), None);
}

#[test]
fn resolve_fails_where_the_platform_has_no_binary() {
    let table = packaged();
    assert_eq!(table.resolve("headlamp-server", WINDOWS), None);
    assert_eq!(table.resolve("helper", MAC), None);
}

#[test]
fn resolve_fails_where_two_entries_offer_the_binary() {
    let mut table = packaged();
    table.add(ResourceEntry::new("headlamp-server", LINUX, "/usr/local/bin/headlamp-server"));
    assert_eq!(table.resolve("headlamp-server", LINUX), None);
    assert_eq!(
        table.resolve("headlamp-server", MAC),
        Some("/Applications/app/headlamp-server".to_string())
    );
    let mut twice = ResourceTable::new();
    twice.add(ResourceEntry::new("helper", LINUX, "/opt/app/helper"));
    twice.add(ResourceEntry::new("helper", LINUX, "/opt/app/helper"));
    assert_eq!(twice.resolve("helper", LINUX), None);
}

#[test]
fn entry_holds_what_it_was_built_from() {
    let entry = ResourceEntry::new("helper", LINUX, "/opt/app/helper");
    assert_eq!(entry.identifier(), "helper");
    assert_eq!(entry.target(), LINUX);
    assert_eq!(entry.path(), "/opt/app/helper");
}

#[test]
fn plan_builds_the_request_for_the_resolved_binary() {
    let spec = SidecarSpec::bundled_server();
    let request = plan(&spec, &packaged(), LINUX).unwrap();
    assert_eq!(request.program(), "/opt/app/headlamp-server");
    assert_eq!(request.args(), &strings(&["-dev", "-enable-dynamic-clusters"]));
}

#[test]
fn plan_fails_with_not_found_for_an_unresolvable_binary() {
    let spec = SidecarSpec::new("missing", strings(&["-dev"]));
    assert_eq!(plan(&spec, &packaged(), LINUX), Err(LaunchError::NotFound("missing".to_string())));
    let server = SidecarSpec::bundled_server();
    assert_eq!(
        plan(&server, &packaged(), WINDOWS),
        Err(LaunchError::NotFound("headlamp-server".to_string()))
    );
}

#[test]
fn conclude_turns_the_answer_into_the_result() {
    assert_eq!(conclude(Ok(4242)).map(|handle| handle.pid()), Ok(4242));
    assert_eq!(conclude(Ok(0)).map(|handle| handle.pid()), Ok(0));
    assert_eq!(
        conclude(Err("permission denied".to_string())),
        Err(LaunchError::SpawnFailed("permission denied".to_string()))
    );
}

#[test]
fn launch_hands_spawn_exactly_the_configured_arguments() {
    let mut seen: Vec<SpawnRequest> = Vec::new();
    let result = launch(SidecarSpec::bundled_server(), &packaged(), LINUX, |request| {
        seen.push(request);
        Ok(4242)
    });
    assert_eq!(result.map(|handle| handle.pid()), Ok(4242));
    assert_eq!(seen.len(), 1);
    assert_eq!(seen[0].program(), "/opt/app/headlamp-server");
    assert_eq!(seen[0].args(), &strings(&["-dev", "-enable-dynamic-clusters"]));
}

#[test]
fn launch_keeps_the_order_and_the_text_of_the_arguments() {
    let args = strings(&["b", "a", "$PATH", "a", "", "; rm -rf /", "'quoted'"]);
    let mut seen: Vec<Vec<String>> = Vec::new();
    let result = launch(SidecarSpec::new("helper", args.clone()), &packaged(), LINUX, |request| {
        seen.push(request.args().clone());
        Ok(1)
    });
    assert!(result.is_ok());
    assert_eq!(seen, vec![args]);
}

#[test]
fn launch_of_an_unresolvable_binary_fails_before_any_spawn() {
    let mut calls = 0;
    let result = launch(SidecarSpec::new("missing", strings(&["-dev"])), &packaged(), LINUX, |_| {
        calls += 1;
        Ok(1)
    });
    assert_eq!(result, Err(LaunchError::NotFound("missing".to_string())));
    assert_eq!(calls, 0);
    let again = launch(SidecarSpec::new("missing", strings(&["-dev"])), &packaged(), LINUX, |_| {
        calls += 1;
        Ok(1)
    });
    assert_eq!(again, Err(LaunchError::NotFound("missing".to_string())));
    assert_eq!(calls, 0);
}

#[test]
fn launch_reports_a_refused_spawn_and_does_not_retry() {
    let mut calls = 0;
    let result = launch(SidecarSpec::bundled_server(), &packaged(), LINUX, |_| {
        calls += 1;
        Err("resource temporarily unavailable".to_string())
    });
    assert_eq!(
        result,
        Err(LaunchError::SpawnFailed("resource temporarily unavailable".to_string()))
    );
    assert_eq!(calls, 1);
}

#[test]
fn diagnostics_name_the_failure() {
    assert_eq!(
        LaunchError::NotFound("headlamp-server".to_string()).diagnostic(),
        "Sidecar binary not found: headlamp-server"
    );
    assert_eq!(
        LaunchError::SpawnFailed("permission denied".to_string()).diagnostic(),
        "Failed to spawn sidecar: permission denied"
    );
    assert_eq!(LaunchError::SpawnFailed(String::new()).diagnostic(), "Failed to spawn sidecar: ");
}

#[test]
fn errors_are_copied_as_they_are() {
    let not_found = LaunchError::NotFound("x".to_string());
    assert_eq!(not_found.duplicate(), not_found);
    let failed = LaunchError::SpawnFailed("y".to_string());
    assert_eq!(failed.duplicate(), failed);
}

#[test]
fn supervisor_brings_the_sidecar_up() {
    let supervisor = Supervisor::new(SidecarSpec::bundled_server());
    assert_eq!(supervisor.state(), &LaunchState::Idle);
    assert_eq!(supervisor.spec(), &SidecarSpec::bundled_server());
    let resolution = packaged().resolve(supervisor.spec().binary(), LINUX);
    let (supervisor, action) = supervisor.step(LaunchEvent::Resolved(resolution));
    assert_eq!(supervisor.state(), &LaunchState::Spawning);
    match action {
        LaunchAction::Spawn(request) => {
            assert_eq!(request.program(), "/opt/app/headlamp-server");
            assert_eq!(request.args(), &strings(&["-dev", "-enable-dynamic-clusters"]));
        },
        other => panic!("expected a spawn request, got {:?}", other),
    }
    let (supervisor, action) = supervisor.step(LaunchEvent::SpawnReturned(Ok(77)));
    assert_eq!(action, LaunchAction::Nothing);
    match supervisor.state() {
        LaunchState::Running(handle) => assert_eq!(handle.pid(), 77),
        other => panic!("expected a running sidecar, got {:?}", other),
    }
}

#[test]
fn supervisor_aborts_on_an_unresolvable_binary_and_stays_aborted() {
    let supervisor = Supervisor::new(SidecarSpec::bundled_server());
    let resolution = packaged().resolve(supervisor.spec().binary(), WINDOWS);
    assert_eq!(resolution, None);
    let (mut supervisor, action) = supervisor.step(LaunchEvent::Resolved(resolution));
    let not_found = LaunchError::NotFound("headlamp-server".to_string());
    assert_eq!(action, LaunchAction::Abort(not_found.clone()));
    assert_eq!(supervisor.state(), &LaunchState::Aborted(not_found.clone()));
    let later = vec![
        LaunchEvent::Resolved(Some("/opt/app/headlamp-server".to_string())),
        LaunchEvent::SpawnReturned(Ok(5)),
        LaunchEvent::SpawnReturned(Err("late".to_string())),
        LaunchEvent::ChildExited,
        LaunchEvent::Resolved(None),
    ];
    for event in later {
        let (next, action) = supervisor.step(event);
        assert_eq!(action, LaunchAction::Nothing);
        assert_eq!(next.state(), &LaunchState::Aborted(not_found.clone()));
        supervisor = next;
    }
}

#[test]
fn supervisor_aborts_on_a_refused_spawn_and_does_not_retry() {
    let supervisor = Supervisor::new(SidecarSpec::bundled_server());
    let (supervisor, _) =
        supervisor.step(LaunchEvent::Resolved(Some("/opt/app/headlamp-server".to_string())));
    let (supervisor, action) =
        supervisor.step(LaunchEvent::SpawnReturned(Err("permission denied".to_string())));
    let failed = LaunchError::SpawnFailed("permission denied".to_string());
    assert_eq!(action, LaunchAction::Abort(failed.clone()));
    assert_eq!(supervisor.state(), &LaunchState::Aborted(failed.clone()));
    let (supervisor, action) =
        supervisor.step(LaunchEvent::Resolved(Some("/opt/app/headlamp-server".to_string())));
    assert_eq!(action, LaunchAction::Nothing);
    let (supervisor, action) = supervisor.step(LaunchEvent::SpawnReturned(Ok(9)));
    assert_eq!(action, LaunchAction::Nothing);
    assert_eq!(supervisor.state(), &LaunchState::Aborted(failed));
}

#[test]
fn supervisor_does_not_act_on_the_end_of_the_sidecar() {
    let supervisor = Supervisor::new(SidecarSpec::bundled_server());
    let (supervisor, _) = supervisor.step(LaunchEvent::Resolved(Some("/bin/s".to_string())));
    let (supervisor, _) = supervisor.step(LaunchEvent::SpawnReturned(Ok(12)));
    let (supervisor, action) = supervisor.step(LaunchEvent::ChildExited);
    assert_eq!(action, LaunchAction::Nothing);
    let (supervisor, action) = supervisor.step(LaunchEvent::Resolved(Some("/bin/s".to_string())));
    assert_eq!(action, LaunchAction::Nothing);
    match supervisor.state() {
        LaunchState::Running(handle) => assert_eq!(handle.pid(), 12),
        other => panic!("expected a running sidecar, got {:?}", other),
    }
}

#[test]
fn supervisor_gives_the_result_once_the_launch_is_over() {
    let idle = Supervisor::new(SidecarSpec::bundled_server());
    assert_eq!(idle.into_result(), None);
    let (spawning, _) = Supervisor::new(SidecarSpec::bundled_server())
        .step(LaunchEvent::Resolved(Some("/bin/s".to_string())));
    assert_eq!(spawning.into_result(), None);
    let (spawning, _) = Supervisor::new(SidecarSpec::bundled_server())
        .step(LaunchEvent::Resolved(Some("/bin/s".to_string())));
    let (running, _) = spawning.step(LaunchEvent::SpawnReturned(Ok(31)));
    assert_eq!(running.into_result().map(|result| result.map(|handle| handle.pid())), Some(Ok(31)));
    let (aborted, _) =
        Supervisor::new(SidecarSpec::bundled_server()).step(LaunchEvent::Resolved(None));
    assert_eq!(
        aborted.into_result(),
        Some(Err(LaunchError::NotFound("headlamp-server".to_string())))
    );
}

#[test]
fn supervisor_and_launch_end_alike() {
    let answers: Vec<Result<u32, String>> = vec![Ok(8), Err("no memory".to_string())];
    for target in [LINUX, WINDOWS] {
        for answer in answers.iter() {
            let direct = launch(SidecarSpec::bundled_server(), &packaged(), target, |_| {
                answer.clone()
            });
            let supervisor = Supervisor::new(SidecarSpec::bundled_server());
            let resolution = packaged().resolve(supervisor.spec().binary(), target);
            let (supervisor, _) = supervisor.step(LaunchEvent::Resolved(resolution));
            let (supervisor, _) = supervisor.step(LaunchEvent::SpawnReturned(answer.clone()));
            assert_eq!(supervisor.into_result(), Some(direct));
        }
    }
}

#[test]
fn supervisor_ignores_events_that_come_out_of_turn() {
    let supervisor = Supervisor::new(SidecarSpec::bundled_server());
    let (supervisor, action) = supervisor.step(LaunchEvent::SpawnReturned(Ok(1)));
    assert_eq!(action, LaunchAction::Nothing);
    assert_eq!(supervisor.state(), &LaunchState::Idle);
    let (supervisor, action) = supervisor.step(LaunchEvent::ChildExited);
    assert_eq!(action, LaunchAction::Nothing);
    assert_eq!(supervisor.state(), &LaunchState::Idle);
    let (supervisor, _) = supervisor.step(LaunchEvent::Resolved(Some("/bin/s".to_string())));
    let (supervisor, action) = supervisor.step(LaunchEvent::Resolved(Some("/bin/t".to_string())));
    assert_eq!(action, LaunchAction::Nothing);
    assert_eq!(supervisor.state(), &LaunchState::Spawning);
    let (supervisor, action) = supervisor.step(LaunchEvent::ChildExited);
    assert_eq!(action, LaunchAction::Nothing);
    assert_eq!(supervisor.state(), &LaunchState::Spawning);
}
