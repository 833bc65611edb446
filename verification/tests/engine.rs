use std::time::Duration;
use wifi_deauther::address::MacAddress;
use wifi_deauther::engine::{
    DeauthEngine, Dispatched, EngineConfig, EnginePhase, WorkerAction, WorkerThrottle,
    CONTROL_CHANNEL_CAPACITY,
};
use wifi_deauther::DeauthError;

fn target() -> MacAddress {
    MacAddress::new([0xAA, 0xBB, 0xCC, 0xDD, 0xEE, 0xFF])
}

fn access_point() -> MacAddress {
    MacAddress::new([0x11, 0x22, 0x33, 0x44, 0x55, 0x66])
}

fn small_config() -> EngineConfig {
    EngineConfig {
        worker_threads: 2,
        max_rate_per_worker: 1000,
        buffer_pool_size: 10,
        buffer_size: 2048,
        ..EngineConfig::default()
    }
}

/// Runs one worker until the queue is empty, sending `bytes` for each request.
fn drain_work(engine: &mut DeauthEngine, bytes: usize) -> usize {
    let mut sent = 0;
    loop {
        match engine.poll_work() {
            WorkerAction::Send { request: _, buffer } => {
                let outcome: Result<usize, String> = Ok(bytes);
                engine.complete_send(buffer, &outcome, Duration::from_micros(5));
                sent += 1;
            }
            WorkerAction::Discarded(_) => {}
            WorkerAction::Idle | WorkerAction::Exit => return sent,
        }
    }
}

#[test]
fn test_engine_creation() {
    let config = EngineConfig::default();
    let engine = DeauthEngine::new(config).expect("Should create engine");

    assert_eq!(engine.config().worker_threads, 4);
    assert_eq!(engine.config().max_rate_per_worker, 1000);
}

#[test]
fn default_config() {
    let config = EngineConfig::default();
    assert_eq!(config.worker_threads, 4);
    assert_eq!(config.max_rate_per_worker, 1000);
    assert_eq!(config.buffer_pool_size, 100);
    assert_eq!(config.buffer_size, 2048);
    assert_eq!(config.metrics_window, 100);
    assert!(config.rate_limiting);
    assert_eq!(config.max_targets, 50);
    assert!(config.is_valid());
}

#[test]
fn invalid_config_is_refused() {
    let no_buffers = EngineConfig { buffer_pool_size: 0, ..EngineConfig::default() };
    assert!(!no_buffers.is_valid());
    assert!(matches!(DeauthEngine::new(no_buffers), Err(DeauthError::ConfigError(_))));

    let no_rate = EngineConfig { max_rate_per_worker: 0, ..EngineConfig::default() };
    assert!(matches!(DeauthEngine::new(no_rate), Err(DeauthError::ConfigError(_))));

    let huge_pool = EngineConfig { buffer_pool_size: usize::MAX, ..EngineConfig::default() };
    assert!(matches!(DeauthEngine::new(huge_pool), Err(DeauthError::ConfigError(_))));

    let huge_buffers = EngineConfig { buffer_size: usize::MAX, ..EngineConfig::default() };
    assert!(matches!(DeauthEngine::new(huge_buffers), Err(DeauthError::ConfigError(_))));

    let no_workers = EngineConfig { worker_threads: 0, ..EngineConfig::default() };
    assert!(DeauthEngine::new(no_workers).is_ok());
}

#[test]
fn end_to_end_ten_requests() {
    let mut engine = DeauthEngine::new(small_config()).expect("a valid configuration");
    assert_eq!(engine.phase(), EnginePhase::Constructed);
    engine.start().expect("a new engine starts");
    assert_eq!(engine.phase(), EnginePhase::Running);

    for _ in 0..10 {
        engine
            .inject_deauth(target(), access_point(), 7, 1, Duration::from_millis(100))
            .expect("the control channel has room");
    }
    engine.dispatch_pending();
    assert_eq!(drain_work(&mut engine, 26), 10);

    let metrics = engine.get_metrics().expect("the engine runs");
    assert_eq!(metrics.packets_injected, 10);
    assert_eq!(metrics.successful_injections, 10);
    assert_eq!(metrics.bytes_transmitted, 260);
    assert_eq!(engine.buffer_stats().available, 10);
    assert_eq!(engine.buffer_stats().total, 10);
    assert_eq!(engine.buffer_stats().buffer_size, 2048);
}

#[test]
fn get_metrics_dispatches_what_was_submitted_before() {
    let mut engine = DeauthEngine::new(small_config()).expect("a valid configuration");
    engine.start().expect("starts");
    engine.inject_deauth(target(), access_point(), 1, 1, Duration::ZERO).expect("room");
    // Nothing was sent yet.
    let metrics = engine.get_metrics().expect("the engine runs");
    assert_eq!(metrics.packets_injected, 0);
    // The request that was ahead of it is on the work queue.
    assert!(matches!(engine.poll_work(), WorkerAction::Send { .. }));
}

#[test]
fn requests_are_handled_in_order() {
    let mut engine = DeauthEngine::new(small_config()).expect("a valid configuration");
    engine.start().expect("starts");
    for code in 1..=3u16 {
        engine.inject_deauth(target(), access_point(), code, code as u32, Duration::ZERO).expect("room");
    }
    assert!(matches!(engine.dispatch_next(), Dispatched::Queued));
    engine.dispatch_pending();
    assert!(matches!(engine.dispatch_next(), Dispatched::Nothing));
    for code in 1..=3u16 {
        match engine.poll_work() {
            WorkerAction::Send { request, buffer } => {
                assert_eq!(request.reason_code, code);
                assert_eq!(request.count, code as u32);
                assert_eq!(request.target, target());
                assert_eq!(request.access_point, access_point());
                assert_eq!(buffer.capacity(), 2048);
                assert!(buffer.is_empty());
                let outcome: Result<usize, String> = Ok(1);
                engine.complete_send_at(buffer, &outcome, Duration::ZERO, 0);
            }
            _ => panic!("a request was queued"),
        }
    }
    assert!(matches!(engine.poll_work(), WorkerAction::Idle));
}

#[test]
fn failed_sends_are_recorded_and_stop_nothing() {
    let mut engine = DeauthEngine::new(small_config()).expect("a valid configuration");
    engine.start().expect("starts");
    for _ in 0..3 {
        engine.inject_deauth(target(), access_point(), 7, 1, Duration::ZERO).expect("room");
    }
    engine.dispatch_pending();
    let mut outcomes: Vec<Result<usize, String>> =
        vec![Ok(30), Err("no carrier".to_string()), Ok(20)];
    outcomes.reverse();
    while let WorkerAction::Send { request: _, buffer } = engine.poll_work() {
        let outcome = outcomes.pop().expect("three requests");
        engine.complete_send_at(buffer, &outcome, Duration::from_micros(100), 5);
    }
    let update = engine.publish_metrics_at(6, 7).expect("the engine runs");
    assert_eq!(update.timestamp, 6);
    assert_eq!(update.metrics.last_update, 7);
    assert_eq!(update.metrics.packets_injected, 3);
    assert_eq!(update.metrics.successful_injections, 2);
    assert_eq!(update.metrics.bytes_transmitted, 50);
    assert_eq!(update.metrics.success_rate_ppm, 666_666);
    assert_eq!(update.metrics.packets_per_second, 3);
    assert_eq!(update.metrics.avg_latency_us, 100);
    assert_eq!(engine.buffer_stats().available, 10);
    assert_eq!(engine.phase(), EnginePhase::Running);
}

#[test]
fn exhausted_pool_does_not_stall_workers() {
    let config = EngineConfig { buffer_pool_size: 1, ..small_config() };
    let mut engine = DeauthEngine::new(config).expect("a valid configuration");
    engine.start().expect("starts");
    for _ in 0..2 {
        engine.inject_deauth(target(), access_point(), 7, 1, Duration::ZERO).expect("room");
    }
    engine.dispatch_pending();
    // Two workers hold a buffer each, though the pool has one.
    let first = engine.poll_work();
    let second = engine.poll_work();
    assert_eq!(engine.buffer_stats().available, 0);
    for action in [first, second] {
        match action {
            WorkerAction::Send { request: _, buffer } => {
                assert_eq!(buffer.capacity(), 2048);
                let outcome: Result<usize, String> = Ok(1);
                engine.complete_send_at(buffer, &outcome, Duration::ZERO, 0);
            }
            _ => panic!("a request was queued"),
        }
    }
    assert_eq!(engine.buffer_stats().available, 1);
}

#[test]
fn stop_injection_empties_the_queue_without_sending() {
    let mut engine = DeauthEngine::new(small_config()).expect("a valid configuration");
    engine.start().expect("starts");
    for _ in 0..3 {
        engine.inject_deauth(target(), access_point(), 7, 1, Duration::ZERO).expect("room");
    }
    engine.stop_injection().expect("room");
    assert!(matches!(engine.dispatch_next(), Dispatched::Queued));
    assert!(matches!(engine.dispatch_next(), Dispatched::Queued));
    assert!(matches!(engine.dispatch_next(), Dispatched::Queued));
    assert!(matches!(engine.dispatch_next(), Dispatched::Draining));
    for _ in 0..3 {
        assert!(matches!(engine.poll_work(), WorkerAction::Discarded(_)));
    }
    assert!(matches!(engine.poll_work(), WorkerAction::Idle));
    assert_eq!(engine.buffer_stats().available, 10);
    let update = engine.publish_metrics_at(0, 0).expect("the engine runs");
    assert_eq!(update.metrics.packets_injected, 0);

    // Once the queue was found empty, work is sent for again.
    engine.inject_deauth(target(), access_point(), 7, 1, Duration::ZERO).expect("room");
    engine.dispatch_pending();
    assert_eq!(drain_work(&mut engine, 26), 1);
}

#[test]
fn control_channel_is_bounded() {
    let mut engine = DeauthEngine::new(small_config()).expect("a valid configuration");
    for _ in 0..CONTROL_CHANNEL_CAPACITY {
        engine.inject_deauth(target(), access_point(), 7, 1, Duration::ZERO).expect("room");
    }
    assert!(matches!(
        engine.inject_deauth(target(), access_point(), 7, 1, Duration::ZERO),
        Err(DeauthError::InjectionError(_))
    ));
    assert!(matches!(engine.stop_injection(), Err(DeauthError::InjectionError(_))));
    assert!(matches!(engine.get_metrics(), Err(DeauthError::InjectionError(_))));
    // A full channel takes a command again once one was handled; a refused
    // request for a readout still lets the dispatcher run.
    assert!(engine.inject_deauth(target(), access_point(), 7, 1, Duration::ZERO).is_ok());
}

#[test]
fn start_only_once() {
    let mut engine = DeauthEngine::new(small_config()).expect("a valid configuration");
    assert!(engine.start().is_ok());
    assert!(matches!(engine.start(), Err(DeauthError::InjectionError(_))));
    assert_eq!(engine.phase(), EnginePhase::Running);
}

#[test]
fn shutdown_stops_the_engine() {
    let mut engine = DeauthEngine::new(small_config()).expect("a valid configuration");
    engine.start().expect("starts");
    engine.inject_deauth(target(), access_point(), 7, 1, Duration::ZERO).expect("room");
    engine.dispatch_pending();
    assert!(engine.is_running());

    engine.shutdown().expect("room");
    // The running flag is cleared at once: workers leave, nothing is published.
    assert_eq!(engine.phase(), EnginePhase::ShuttingDown);
    assert!(!engine.is_running());
    assert!(matches!(engine.poll_work(), WorkerAction::Exit));
    assert!(engine.publish_metrics().is_none());

    assert!(matches!(engine.dispatch_next(), Dispatched::Stopped));
    assert_eq!(engine.phase(), EnginePhase::Stopped);
    assert!(matches!(engine.dispatch_next(), Dispatched::Nothing));
}

#[test]
fn shutdown_is_idempotent() {
    let mut engine = DeauthEngine::new(small_config()).expect("a valid configuration");
    engine.start().expect("starts");
    engine.shutdown().expect("room");
    engine.dispatch_pending();
    assert_eq!(engine.phase(), EnginePhase::Stopped);

    for _ in 0..3 {
        assert!(matches!(engine.shutdown(), Err(DeauthError::InjectionError(_))));
        assert_eq!(engine.phase(), EnginePhase::Stopped);
    }
    assert!(matches!(
        engine.inject_deauth(target(), access_point(), 7, 1, Duration::ZERO),
        Err(DeauthError::InjectionError(_))
    ));
    assert!(matches!(engine.stop_injection(), Err(DeauthError::InjectionError(_))));
    assert!(matches!(engine.get_metrics(), Err(DeauthError::InjectionError(_))));
    assert!(matches!(engine.poll_work(), WorkerAction::Exit));
}

#[test]
fn shutdown_before_start() {
    let mut engine = DeauthEngine::new(small_config()).expect("a valid configuration");
    engine.shutdown().expect("room");
    assert_eq!(engine.phase(), EnginePhase::ShuttingDown);
    engine.dispatch_pending();
    assert_eq!(engine.phase(), EnginePhase::Stopped);
    assert!(matches!(engine.start(), Err(DeauthError::InjectionError(_))));
}

#[test]
fn commands_behind_a_shutdown_are_lost() {
    let mut engine = DeauthEngine::new(small_config()).expect("a valid configuration");
    engine.start().expect("starts");
    engine.shutdown().expect("room");
    engine.inject_deauth(target(), access_point(), 7, 1, Duration::ZERO).expect("room");
    // The request for a readout waits behind the shutdown and is never answered.
    assert!(matches!(engine.get_metrics(), Err(DeauthError::InjectionError(_))));
    assert_eq!(engine.phase(), EnginePhase::Stopped);
    assert!(matches!(engine.dispatch_next(), Dispatched::Nothing));
}

#[test]
fn send_delay_is_the_shortfall_to_the_least_interval() {
    let config = small_config();
    // A thousand a second: one send each 1000 us.
    assert_eq!(config.send_delay_nanos(0), 1_000_000);
    assert_eq!(config.send_delay_nanos(400_000), 600_000);
    assert_eq!(config.send_delay_nanos(999_999), 1);
    assert_eq!(config.send_delay_nanos(1_000_000), 0);
    assert_eq!(config.send_delay_nanos(u64::MAX), 0);

    // Three a second: 333_333 whole microseconds.
    let slow = EngineConfig { max_rate_per_worker: 3, ..small_config() };
    assert_eq!(slow.send_delay_nanos(0), 333_333_000);

    // Faster than a million a second: no whole microsecond, no delay.
    let fast = EngineConfig { max_rate_per_worker: 2_000_000, ..small_config() };
    assert_eq!(fast.send_delay_nanos(0), 0);

    let unlimited = EngineConfig { rate_limiting: false, ..small_config() };
    assert_eq!(unlimited.send_delay_nanos(0), 0);
}

#[test]
fn error_carries_its_message() {
    let error = DeauthError::ConfigError("bad".to_string());
    assert_eq!(error.message(), "bad");
    assert_eq!(DeauthError::IoError("gone".to_string()).message(), "gone");
    assert_eq!(DeauthError::PcapError("no device".to_string()).message(), "no device");
    assert_eq!(DeauthError::InterfaceError("a".to_string()).message(), "a");
    assert_eq!(DeauthError::InjectionError("b".to_string()).message(), "b");
    assert_eq!(DeauthError::PermissionError("c".to_string()).message(), "c");
    assert_eq!(DeauthError::PlatformError("d".to_string()).message(), "d");
}

#[test]
fn refusals_say_what_failed_and_why() {
    let mut engine = DeauthEngine::new(small_config()).expect("a valid configuration");
    for _ in 0..CONTROL_CHANNEL_CAPACITY {
        engine.stop_injection().expect("room");
    }
    let full = engine
        .inject_deauth(target(), access_point(), 7, 1, Duration::ZERO)
        .expect_err("the channel is full");
    assert_eq!(full.message(), "Failed to submit request: no available capacity");
    assert_eq!(
        engine.stop_injection().expect_err("full").message(),
        "Failed to stop injection: no available capacity"
    );
    assert_eq!(
        engine.shutdown().expect_err("full").message(),
        "Failed to shutdown: no available capacity"
    );
    assert_eq!(
        engine.get_metrics().expect_err("full").message(),
        "Failed to get metrics: no available capacity"
    );
    // The flag was cleared though the command found no room.
    assert_eq!(engine.phase(), EnginePhase::ShuttingDown);

    engine.shutdown().expect("room");
    assert_eq!(
        engine.get_metrics().expect_err("stops first").message(),
        "Metrics request failed: channel closed"
    );
    assert_eq!(
        engine
            .inject_deauth(target(), access_point(), 7, 1, Duration::ZERO)
            .expect_err("closed")
            .message(),
        "Failed to submit request: channel closed"
    );
    assert_eq!(
        engine.stop_injection().expect_err("closed").message(),
        "Failed to stop injection: channel closed"
    );
    assert_eq!(engine.shutdown().expect_err("closed").message(), "Failed to shutdown: channel closed");
    assert_eq!(
        engine.get_metrics().expect_err("closed").message(),
        "Failed to get metrics: channel closed"
    );
    assert_eq!(
        engine.start().expect_err("stopped").message(),
        "Failed to start: engine already started"
    );
    let refused = DeauthEngine::new(EngineConfig { buffer_pool_size: 0, ..small_config() });
    assert_eq!(
        refused.err().expect("refused").message(),
        "buffer pool, buffer size or worker rate out of range"
    );
}

#[test]
fn worker_paces_itself() {
    let config = small_config();
    let mut throttle = WorkerThrottle::new(&config, 5_000_000);
    // A thousand a second: 1_000_000 ns between sends, counted from the start.
    assert_eq!(throttle.delay_nanos(5_000_000), 1_000_000);
    assert_eq!(throttle.delay_nanos(5_250_000), 750_000);
    assert_eq!(throttle.delay_nanos(6_000_000), 0);
    assert_eq!(throttle.delay_nanos(9_000_000), 0);
    // A clock that went back counts as no time passed.
    assert_eq!(throttle.delay_nanos(0), 1_000_000);
    throttle.mark_sent(9_000_000);
    assert_eq!(throttle.delay_nanos(9_000_001), 999_999);
    assert_eq!(throttle.delay_nanos(9_000_001 + 999_999), 0);

    let unlimited = EngineConfig { rate_limiting: false, ..small_config() };
    assert_eq!(WorkerThrottle::new(&unlimited, 0).delay_nanos(0), 0);
}

#[test]
fn a_readout_is_made_when_it_is_asked_for() {
    let mut engine = DeauthEngine::new(small_config()).expect("a valid configuration");
    engine.start().expect("starts");
    engine.inject_deauth(target(), access_point(), 7, 1, Duration::ZERO).expect("room");
    engine.dispatch_pending_at(0, 0);
    match engine.poll_work() {
        WorkerAction::Send { request: _, buffer } => {
            let outcome: Result<usize, String> = Ok(26);
            engine.complete_send_at(buffer, &outcome, Duration::from_micros(40), 1_000);
        }
        _ => panic!("a request was queued"),
    }
    // No readout was published, yet the answer counts the send.
    let metrics = engine.get_metrics_at(2_000, 77).expect("the engine runs");
    assert_eq!(metrics.packets_injected, 1);
    assert_eq!(metrics.bytes_transmitted, 26);
    assert_eq!(metrics.packets_per_second, 1);
    assert_eq!(metrics.avg_latency_us, 40);
    assert_eq!(metrics.last_update, 77);
    assert!(matches!(engine.dispatch_next_at(0, 0), Dispatched::Nothing));

    // The publisher's next readout agrees.
    let update = engine.publish_metrics_at(3_000, 78).expect("the engine runs");
    assert_eq!(update.metrics.packets_injected, 1);
    assert_eq!(update.metrics.last_update, 78);
}
