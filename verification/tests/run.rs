use swifi::{
    AppConfig, AppConfigBuilder, CliArgs, Direction, Orchestration, Phase, Server,
    SpeedMeasurement, SpeedTest, TestError,
};

fn server(id: u32, distance_m: u64) -> Server {
    Server {
        id,
        sponsor: format!("sponsor {id}"),
        name: format!("name {id}"),
        distance_m,
        url: format!("http://server{id}.test/upload.php"),
    }
}

fn args(list: bool, server: Option<&str>, down: bool, up: bool) -> CliArgs {
    CliArgs { list, server: server.map(|s| s.to_string()), down, up }
}

#[test]
fn direction_resolution_from_flags() {
    let cases = [
        (false, false, Direction::Both),
        (true, false, Direction::Download),
        (false, true, Direction::Upload),
        (true, true, Direction::Both),
    ];
    for (down, up, expected) in cases {
        let config = AppConfigBuilder::from_args(args(false, None, down, up)).build();
        assert_eq!(config.direction(), expected);
    }
}

#[test]
fn config_getters_and_default() {
    let config = AppConfigBuilder::from_args(args(true, Some("42"), true, false)).build();
    assert!(config.has_list());
    assert_eq!(config.server_id().map(|s| s.as_str()), Some("42"));
    assert_eq!(config.direction(), Direction::Download);

    let default_config = AppConfig::default();
    assert!(!default_config.has_list());
    assert!(default_config.server_id().is_none());
    assert_eq!(default_config.direction(), Direction::Both);
    assert_eq!(Direction::default(), Direction::Both);
}

#[test]
fn session_direction_flags() {
    let test = SpeedTest::new(server(1, 1_000), Direction::Download);
    assert!(test.should_download());
    assert!(!test.should_upload());
    let test = SpeedTest::new(server(1, 1_000), Direction::Upload);
    assert!(!test.should_download());
    assert!(test.should_upload());
    let test = SpeedTest::new(server(1, 1_000), Direction::Both);
    assert!(test.should_download());
    assert!(test.should_upload());
}

#[test]
fn mbps_conversion_exact_values() {
    assert_eq!(SpeedMeasurement::from_bps(0).mbps_hundredths(), 0);
    assert_eq!(SpeedMeasurement::from_bps(0).mbps_text(), "0.00");
    assert_eq!(SpeedMeasurement::from_bps(42_000_000).mbps_hundredths(), 4_200);
    assert_eq!(SpeedMeasurement::from_bps(42_000_000).mbps_text(), "42.00");
    assert_eq!(SpeedMeasurement::from_bps(8_500_000).mbps_text(), "8.50");
    assert_eq!(SpeedMeasurement::from_bps(123_456_789).mbps_text(), "123.45");
    assert_eq!(SpeedMeasurement::from_bps(9_999).mbps_hundredths(), 0);
}

#[test]
fn mbps_conversion_monotone_samples() {
    let mut last: u64 = 0;
    for bps in [0u64, 1, 9_999, 10_000, 500_000, 42_000_000, u64::MAX] {
        let h = SpeedMeasurement::from_bps(bps).mbps_hundredths();
        assert!(h >= last);
        last = h;
    }
}

#[test]
fn start_with_no_candidates_fails() {
    let r = Orchestration::start(Vec::new(), Direction::Both);
    match r {
        Err(TestError::NoServersAvailable) => {}
        other => panic!("expected NoServersAvailable, got {other:?}"),
    }
}

#[test]
fn fallback_third_candidate_succeeds() {
    let candidates = vec![server(1, 1_000), server(2, 2_000), server(3, 3_000)];
    let mut run = Orchestration::start(candidates, Direction::Both).unwrap();

    assert!(run.is_running());
    assert_eq!(run.current_server().id, 1);
    run.on_outcome(Err("connection refused".to_string()));
    assert!(run.is_running());
    assert_eq!(run.current_server().id, 2);
    run.on_outcome(Err("timed out".to_string()));
    assert!(run.is_running());
    assert_eq!(run.current_server().id, 3);
    assert_eq!(run.next_phase(), Phase::Download);
    run.on_outcome(Ok(42_000_000));
    assert_eq!(run.next_phase(), Phase::Upload);
    run.on_outcome(Ok(8_500_000));

    assert!(!run.is_running());
    let failures = run.failures();
    assert_eq!(failures.len(), 2);
    assert_eq!(failures[0].server_id, 1);
    assert_eq!(failures[0].cause, "connection refused");
    assert_eq!(failures[1].server_id, 2);
    assert_eq!(failures[1].cause, "timed out");

    let result = run.finish().unwrap();
    assert_eq!(result.server.id, 3);
    assert_eq!(result.download.unwrap().mbps_hundredths(), 4_200);
    assert_eq!(result.upload.unwrap().mbps_hundredths(), 850);
}

#[test]
fn exhaustion_makes_exactly_n_attempts() {
    let n = 4u32;
    let candidates: Vec<Server> = (1..=n).map(|i| server(i, 1_000 * i as u64)).collect();
    let mut run = Orchestration::start(candidates, Direction::Download).unwrap();
    let mut attempts: u32 = 0;
    while run.is_running() {
        attempts += 1;
        run.on_outcome(Err(format!("attempt {attempts} failed")));
    }
    assert_eq!(attempts, n);
    assert_eq!(run.failures().len(), n as usize);
    match run.finish() {
        Err(TestError::AllAttemptsFailed) => {}
        other => panic!("expected AllAttemptsFailed, got {other:?}"),
    }
}

#[test]
fn upload_failure_aborts_the_whole_session() {
    let candidates = vec![server(1, 1_000), server(2, 2_000)];
    let mut run = Orchestration::start(candidates, Direction::Both).unwrap();
    run.on_outcome(Ok(42_000_000));
    assert_eq!(run.next_phase(), Phase::Upload);
    run.on_outcome(Err("upload socket closed".to_string()));
    // The partial download of the failed session is discarded: the next
    // candidate starts over with its own download phase.
    assert!(run.is_running());
    assert_eq!(run.current_server().id, 2);
    assert_eq!(run.next_phase(), Phase::Download);
    assert_eq!(run.failures().len(), 1);
    assert_eq!(run.failures()[0].phase, Phase::Upload);
    run.on_outcome(Ok(10_000_000));
    run.on_outcome(Ok(5_000_000));
    let result = run.finish().unwrap();
    assert_eq!(result.server.id, 2);
    assert_eq!(result.download.unwrap().mbps_hundredths(), 1_000);
}

#[test]
fn upload_only_session_skips_download() {
    let candidates = vec![server(1, 1_000)];
    let mut run = Orchestration::start(candidates, Direction::Upload).unwrap();
    assert_eq!(run.next_phase(), Phase::Upload);
    run.on_outcome(Ok(7_000_000));
    assert!(!run.is_running());
    let result = run.finish().unwrap();
    assert!(result.download.is_none());
    assert_eq!(result.upload.unwrap().mbps_hundredths(), 700);
}

#[test]
fn end_to_end_nearest_candidates_with_fallback() {
    // Configuration: no pinned server, both directions. The catalog knows
    // two servers; the nearest one fails, the second succeeds with
    // 42.0 Mbps down and 8.5 Mbps up.
    let config = AppConfigBuilder::from_args(args(false, None, false, false)).build();
    let raw = vec![server(2, 9_000), server(1, 4_000)];
    let mut run = SpeedTest::execute(&config, raw).unwrap();

    assert_eq!(run.current_server().id, 1);
    run.on_outcome(Err("no route to host".to_string()));
    assert_eq!(run.current_server().id, 2);
    run.on_outcome(Ok(42_000_000));
    run.on_outcome(Ok(8_500_000));
    assert!(!run.is_running());

    assert_eq!(run.failures().len(), 1);
    let result = run.finish().unwrap();
    assert_eq!(result.server.id, 2);
    assert_eq!(result.download.as_ref().unwrap().mbps_text(), "42.00");
    assert_eq!(result.upload.as_ref().unwrap().mbps_text(), "8.50");
}

#[test]
fn execute_with_empty_catalog_has_no_servers() {
    let config = AppConfigBuilder::from_args(args(false, None, false, false)).build();
    let r = SpeedTest::execute(&config, Vec::new());
    assert!(matches!(r, Err(TestError::NoServersAvailable)));
}

#[test]
fn execute_with_invalid_id_fails_before_any_attempt() {
    let config = AppConfigBuilder::from_args(args(false, Some("abc"), false, false)).build();
    let r = SpeedTest::execute(&config, vec![server(1, 1_000)]);
    assert!(matches!(r, Err(TestError::InvalidServerId)));
}

#[test]
fn error_messages() {
    assert_eq!(TestError::InvalidServerId.message(), "Server ID must be a valid number");
    assert_eq!(
        TestError::ServerNotFound { id: 999_999 }.message(),
        "Server with ID=\"999999\" not found in available servers."
    );
    assert_eq!(TestError::NoServersAvailable.message(), "No servers available for testing");
    assert_eq!(
        TestError::AllAttemptsFailed.message(),
        "All attempts failed. Please check your connection."
    );
    assert_eq!(
        TestError::CatalogUnavailable { cause: "dns".to_string() }.message(),
        "Failed to retrieve the server catalog: dns"
    );
    assert_eq!(
        TestError::MeasurementFailed { phase: Phase::Download, cause: "reset".to_string() }
            .message(),
        "Download speed test failed: reset"
    );
    assert_eq!(
        TestError::MeasurementFailed { phase: Phase::Upload, cause: "reset".to_string() }
            .message(),
        "Upload speed test failed: reset"
    );
}
