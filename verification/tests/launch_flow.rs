use tfcd::errors::DriverError;
use tfcd::platform::{HostArch, HostOs, Platform};
use tfcd::supervisor::{LaunchAction, LaunchEvent, LaunchState, Supervisor};

fn linux_supervisor() -> Supervisor {
    Supervisor::new(
        Platform::probe(HostOs::Linux, HostArch::X86_64),
        "/cache/TFCD".to_string(),
        "3000".to_string(),
    )
}

fn step(
    sup: &Supervisor,
    state: LaunchState,
    event: LaunchEvent,
) -> (LaunchState, LaunchAction) {
    sup.step(state, event).expect("event fits the state")
}

#[test]
fn first_run_walks_the_whole_pipeline() {
    let sup = linux_supervisor();

    let (s, a) = step(&sup, LaunchState::Idle, LaunchEvent::Start);
    assert!(matches!(s, LaunchState::Probing));
    match &a {
        LaunchAction::DetectChrome { program, args } => {
            assert_eq!(program, "google-chrome");
            assert_eq!(args, &vec!["--version".to_string()]);
        }
        _ => panic!("expected the version probe"),
    }

    let (s, a) = step(
        &sup,
        s,
        LaunchEvent::ChromeOutput { output: Some("Google Chrome 131.0.6778.85 \n".to_string()) },
    );
    assert!(matches!(&s, LaunchState::CacheCheck { version } if version == "131.0.6778.85"));
    match &a {
        LaunchAction::ReadStamp { path } => assert_eq!(path, "/cache/TFCD/version.txt"),
        _ => panic!("expected the stamp read"),
    }

    let (s, a) = step(&sup, s, LaunchEvent::StampRead { contents: None });
    assert!(matches!(&s, LaunchState::Wiping { version } if version == "131.0.6778.85"));
    match &a {
        LaunchAction::Wipe { root } => assert_eq!(root, "/cache/TFCD"),
        _ => panic!("expected the wipe"),
    }

    let (s, a) = step(&sup, s, LaunchEvent::WipeDone { ok: true });
    assert!(matches!(&s, LaunchState::Fetching { .. }));
    match &a {
        LaunchAction::Fetch { url, archive, root } => {
            assert_eq!(
                url,
                "https://storage.googleapis.com/chrome-for-testing-public/131.0.6778.85/linux64/chromedriver-linux64.zip"
            );
            assert_eq!(archive, "/cache/TFCD/chromedriver-linux64.zip");
            assert_eq!(root, "/cache/TFCD");
        }
        _ => panic!("expected the fetch"),
    }

    let (s, a) = step(&sup, s, LaunchEvent::FetchDone { error: None });
    assert!(matches!(&s, LaunchState::Stamping { .. }));
    match &a {
        LaunchAction::WriteStamp { path, version } => {
            assert_eq!(path, "/cache/TFCD/version.txt");
            assert_eq!(version, "131.0.6778.85");
        }
        _ => panic!("expected the stamp write"),
    }

    let (s, a) = step(&sup, s, LaunchEvent::StampWritten { ok: true });
    assert!(matches!(&s, LaunchState::Spawning { .. }));
    match &a {
        LaunchAction::Spawn { driver, binary, port_arg } => {
            assert_eq!(driver, "/cache/TFCD/chromedriver-linux64/chromedriver");
            assert_eq!(binary, "google-chrome");
            assert_eq!(port_arg, "--port=3000");
        }
        _ => panic!("expected the spawn"),
    }

    let (s, a) = step(&sup, s, LaunchEvent::SpawnResult { ok: true });
    assert!(matches!(&s, LaunchState::AwaitingReady { .. }));
    assert!(matches!(a, LaunchAction::AwaitLine));

    let (s, a) = step(
        &sup,
        s,
        LaunchEvent::Line { line: Some("ChromeDriver was started successfully.".to_string()) },
    );
    assert!(matches!(&s, LaunchState::Running { version } if version == "131.0.6778.85"));
    assert!(matches!(a, LaunchAction::Surrender));
}

#[test]
fn matching_stamp_skips_the_download() {
    let sup = linux_supervisor();
    let (s, _) = step(&sup, LaunchState::Idle, LaunchEvent::Start);
    let (s, _) = step(
        &sup,
        s,
        LaunchEvent::ChromeOutput { output: Some("Google Chrome 131.0.6778.85\n".to_string()) },
    );
    let (s, a) = step(
        &sup,
        s,
        LaunchEvent::StampRead { contents: Some("131.0.6778.85\n".to_string()) },
    );
    assert!(matches!(&s, LaunchState::Spawning { .. }));
    assert!(matches!(a, LaunchAction::Spawn { .. }));
}

#[test]
fn stale_stamp_forces_a_refresh() {
    let sup = linux_supervisor();
    let (s, _) = step(&sup, LaunchState::Idle, LaunchEvent::Start);
    let (s, _) = step(
        &sup,
        s,
        LaunchEvent::ChromeOutput { output: Some("Google Chrome 131.0.6778.85\n".to_string()) },
    );
    let (s, a) = step(
        &sup,
        s,
        LaunchEvent::StampRead { contents: Some("130.0.6723.91".to_string()) },
    );
    assert!(matches!(&s, LaunchState::Wiping { .. }));
    assert!(matches!(a, LaunchAction::Wipe { .. }));
}

#[test]
fn malformed_chrome_output_fails_without_touching_the_cache() {
    let sup = linux_supervisor();
    let (s, _) = step(&sup, LaunchState::Idle, LaunchEvent::Start);
    let (s, a) = step(
        &sup,
        s,
        LaunchEvent::ChromeOutput { output: Some("Google Chrome unknown".to_string()) },
    );
    assert!(matches!(
        s,
        LaunchState::Failed { error: DriverError::VersionFormatInvalid }
    ));
    assert!(matches!(a, LaunchAction::Fail { error: DriverError::VersionFormatInvalid }));
}

#[test]
fn chrome_unavailable_fails() {
    let sup = linux_supervisor();
    let (s, _) = step(&sup, LaunchState::Idle, LaunchEvent::Start);
    let (s, a) = step(&sup, s, LaunchEvent::ChromeOutput { output: None });
    assert!(matches!(s, LaunchState::Failed { error: DriverError::ChromeUnavailable }));
    assert!(matches!(a, LaunchAction::Fail { error: DriverError::ChromeUnavailable }));
}

#[test]
fn non_sentinel_lines_keep_waiting() {
    let sup = linux_supervisor();
    let waiting = LaunchState::AwaitingReady { version: "131.0.6778.85".to_string() };
    let (s, a) = step(
        &sup,
        waiting,
        LaunchEvent::Line { line: Some("listening on port 3000".to_string()) },
    );
    assert!(matches!(&s, LaunchState::AwaitingReady { .. }));
    assert!(matches!(a, LaunchAction::AwaitLine));
}

#[test]
fn closed_stdout_before_sentinel_fails() {
    let sup = linux_supervisor();
    let waiting = LaunchState::AwaitingReady { version: "131.0.6778.85".to_string() };
    let (s, a) = step(&sup, waiting, LaunchEvent::Line { line: None });
    assert!(matches!(
        s,
        LaunchState::Failed { error: DriverError::ReadinessChannelClosed }
    ));
    assert!(matches!(a, LaunchAction::Fail { error: DriverError::ReadinessChannelClosed }));
}

#[test]
fn failed_refresh_steps_surface_their_errors() {
    let sup = linux_supervisor();
    let v = || "131.0.6778.85".to_string();

    let (s, _) = step(&sup, LaunchState::Wiping { version: v() }, LaunchEvent::WipeDone {
        ok: false,
    });
    assert!(matches!(s, LaunchState::Failed { error: DriverError::DiskFullOrPermission }));

    let (s, _) = step(&sup, LaunchState::Fetching { version: v() }, LaunchEvent::FetchDone {
        error: Some(DriverError::NetworkError),
    });
    assert!(matches!(s, LaunchState::Failed { error: DriverError::NetworkError }));

    let (s, _) = step(&sup, LaunchState::Fetching { version: v() }, LaunchEvent::FetchDone {
        error: Some(DriverError::ArchiveCorrupt),
    });
    assert!(matches!(s, LaunchState::Failed { error: DriverError::ArchiveCorrupt }));

    let (s, _) = step(&sup, LaunchState::Stamping { version: v() }, LaunchEvent::StampWritten {
        ok: false,
    });
    assert!(matches!(s, LaunchState::Failed { error: DriverError::DiskFullOrPermission }));

    let (s, _) = step(&sup, LaunchState::Spawning { version: v() }, LaunchEvent::SpawnResult {
        ok: false,
    });
    assert!(matches!(s, LaunchState::Failed { error: DriverError::SpawnFailed }));
}

#[test]
fn mismatched_events_are_refused() {
    let sup = linux_supervisor();
    assert!(sup.step(LaunchState::Idle, LaunchEvent::Line { line: None }).is_none());
    assert!(sup
        .step(
            LaunchState::Running { version: "1.2".to_string() },
            LaunchEvent::Start,
        )
        .is_none());
    assert!(sup
        .step(
            LaunchState::Failed { error: DriverError::NetworkError },
            LaunchEvent::Start,
        )
        .is_none());
}
