use weatherframe::config::{
    credential_from_fields, ConfigError, Coordinates, CredentialSource, DisplayConfig, Protected,
    RawConfig, ServiceConfig, WeatherUnits,
};
use weatherframe::schedule::{Scheduler, TickWait};
use weatherframe::service::{Action, Event, Phase, ServiceError, WeatherFrameService};

fn raw(lat: i64, lon: i64, units: &str, interval: i64) -> RawConfig {
    RawConfig {
        coords: Coordinates {
            lat_microdeg: lat,
            lon_microdeg: lon,
        },
        units: units.to_owned(),
        credential_source: CredentialSource::Path("/foo/bar/secret".to_owned()),
        refresh_interval_secs: interval,
        display_config: DisplayConfig {
            document: "{}".to_owned(),
        },
    }
}

fn expect_ok(r: Result<ServiceConfig, ConfigError>) -> ServiceConfig {
    match r {
        Ok(c) => c,
        Err(e) => panic!("expected a valid config, got {:?}", e),
    }
}

fn expect_err(r: Result<ServiceConfig, ConfigError>) -> ConfigError {
    match r {
        Ok(_) => panic!("expected a validation failure"),
        Err(e) => e,
    }
}

#[test]
fn valid_coordinates_pass() {
    expect_ok(ServiceConfig::load_and_validate(raw(0, 0, "metric", 60)));
    expect_ok(ServiceConfig::load_and_validate(raw(
        90_000_000,
        180_000_000,
        "metric",
        60,
    )));
    expect_ok(ServiceConfig::load_and_validate(raw(
        -90_000_000,
        -180_000_000,
        "metric",
        60,
    )));
}

#[test]
fn out_of_range_coordinates_fail() {
    assert_eq!(
        expect_err(ServiceConfig::load_and_validate(raw(90_000_001, 0, "metric", 60))),
        ConfigError::InvalidCoordinates
    );
    assert_eq!(
        expect_err(ServiceConfig::load_and_validate(raw(0, -180_000_001, "metric", 60))),
        ConfigError::InvalidCoordinates
    );
}

#[test]
fn lat_999_is_invalid_coordinates() {
    let r = ServiceConfig::load_and_validate(raw(999_000_000, 0, "imperial", 1200));
    assert_eq!(expect_err(r), ConfigError::InvalidCoordinates);
}

#[test]
fn non_positive_interval_fails() {
    assert_eq!(
        expect_err(ServiceConfig::load_and_validate(raw(0, 0, "metric", 0))),
        ConfigError::InvalidInterval
    );
    assert_eq!(
        expect_err(ServiceConfig::load_and_validate(raw(0, 0, "metric", -1200))),
        ConfigError::InvalidInterval
    );
}

#[test]
fn positive_interval_passes() {
    let c = expect_ok(ServiceConfig::load_and_validate(raw(0, 0, "metric", 1)));
    assert_eq!(c.refresh_interval_secs, 1);
}

#[test]
fn unknown_units_is_parse_failure() {
    assert_eq!(
        expect_err(ServiceConfig::load_and_validate(raw(0, 0, "fahrenheit", 60))),
        ConfigError::ParseFailure
    );
}

#[test]
fn units_parse_round_trip() {
    assert_eq!(WeatherUnits::parse("imperial"), Some(WeatherUnits::Imperial));
    assert_eq!(WeatherUnits::parse("metric"), Some(WeatherUnits::Metric));
    assert_eq!(WeatherUnits::parse("standard"), Some(WeatherUnits::Standard));
    assert_eq!(WeatherUnits::parse("kelvin"), None);
    assert_eq!(WeatherUnits::parse(""), None);
    for u in [WeatherUnits::Imperial, WeatherUnits::Metric, WeatherUnits::Standard] {
        assert_eq!(WeatherUnits::parse(u.as_str()), Some(u));
    }
}

#[test]
fn end_to_end_example_values() {
    let c = expect_ok(ServiceConfig::load_and_validate(raw(
        33_617_000,
        -117_831_000,
        "imperial",
        1200,
    )));
    assert_eq!(c.coords.lat_microdeg, 33_617_000);
    assert_eq!(c.coords.lon_microdeg, -117_831_000);
    assert_eq!(c.units, WeatherUnits::Imperial);
    assert_eq!(c.refresh_interval_secs, 1200);
}

#[test]
fn example_config_matches_defaults() {
    let c = ServiceConfig::example_config();
    assert_eq!(c.coords.lat_microdeg, 33_617_000);
    assert_eq!(c.coords.lon_microdeg, -117_831_000);
    assert_eq!(c.units, WeatherUnits::Imperial);
    assert_eq!(c.refresh_interval_secs, 1200);
    match &c.credential_source {
        CredentialSource::Path(p) => assert_eq!(p.as_str(), "/foo/bar/secret"),
        CredentialSource::Inline(_) => panic!("example credential should be a path"),
    }
}

#[test]
fn missing_credential_file_fails() {
    let src = CredentialSource::Path("/no/such/file".to_owned());
    match src.resolve(None) {
        Err(e) => assert_eq!(e, ConfigError::CredentialUnreadable),
        Ok(_) => panic!("resolution without file contents must fail"),
    }
}

#[test]
fn credential_file_text_is_revealed_exactly() {
    let src = CredentialSource::Path("/some/file".to_owned());
    match src.resolve(Some("abc123".to_owned())) {
        Ok(p) => assert_eq!(p.expose_secret().as_str(), "abc123"),
        Err(e) => panic!("resolution with file contents failed: {:?}", e),
    }
}

#[test]
fn empty_credential_text_fails() {
    let src = CredentialSource::Path("/some/file".to_owned());
    match src.resolve(Some(String::new())) {
        Err(e) => assert_eq!(e, ConfigError::CredentialUnreadable),
        Ok(_) => panic!("empty credential text must fail"),
    }
}

#[test]
fn inline_credential_resolves_from_memory() {
    let src = CredentialSource::Inline(Protected::new("tok-1".to_owned()));
    assert!(src.file_dependency().is_none());
    match src.resolve(None) {
        Ok(p) => assert_eq!(p.expose_secret().as_str(), "tok-1"),
        Err(e) => panic!("inline resolution failed: {:?}", e),
    }
}

#[test]
fn empty_inline_credential_is_unreadable() {
    let mut cfg = raw(0, 0, "metric", 60);
    cfg.credential_source = CredentialSource::Inline(Protected::new(String::new()));
    assert_eq!(
        expect_err(ServiceConfig::load_and_validate(cfg)),
        ConfigError::CredentialUnreadable
    );
}

#[test]
fn credential_fields_must_be_exactly_one() {
    match credential_from_fields(Some("k".to_owned()), None) {
        Ok(CredentialSource::Inline(p)) => assert_eq!(p.expose_secret().as_str(), "k"),
        _ => panic!("inline field alone must give an inline source"),
    }
    match credential_from_fields(None, Some("/p".to_owned())) {
        Ok(CredentialSource::Path(p)) => assert_eq!(p.as_str(), "/p"),
        _ => panic!("path field alone must give a path source"),
    }
    assert!(matches!(
        credential_from_fields(None, None),
        Err(ConfigError::ParseFailure)
    ));
    assert!(matches!(
        credential_from_fields(Some("k".to_owned()), Some("/p".to_owned())),
        Err(ConfigError::ParseFailure)
    ));
}

#[test]
fn logged_config_never_shows_inline_secret() {
    let secret = "super-secret-token";
    let mut cfg = raw(1_000_000, 2_000_000, "standard", 300);
    cfg.credential_source = CredentialSource::Inline(Protected::new(secret.to_owned()));
    let c = expect_ok(ServiceConfig::load_and_validate(cfg));
    let logged = c.logged();
    assert_eq!(logged.credential.as_str(), "[REDACTED]");
    assert!(!logged.credential.contains(secret));
    assert!(!logged.display_document.contains(secret));
}

#[test]
fn logged_config_is_independent_of_secret() {
    let mut a = raw(0, 0, "metric", 60);
    a.credential_source = CredentialSource::Inline(Protected::new("first".to_owned()));
    let mut b = raw(0, 0, "metric", 60);
    b.credential_source = CredentialSource::Inline(Protected::new("second".to_owned()));
    let la = expect_ok(ServiceConfig::load_and_validate(a)).logged();
    let lb = expect_ok(ServiceConfig::load_and_validate(b)).logged();
    assert_eq!(la.credential, lb.credential);
    assert_eq!(la.lat_microdeg, lb.lat_microdeg);
    assert_eq!(la.units, lb.units);
    assert_eq!(la.refresh_interval_secs, lb.refresh_interval_secs);
    assert_eq!(la.display_document, lb.display_document);
}

#[test]
fn scheduler_holds_cadence_without_drift() {
    // Interval 1000 ms, anchored at 0; every tick finishes early.
    let mut s = Scheduler::new(1000, 0);
    let mut now: u64 = 0;
    for k in 0..100u64 {
        // The tick runs for 250 ms.
        now += 250;
        match s.decide(now) {
            TickWait::Sleep { duration_ms } => {
                assert_eq!(now + duration_ms, 1000 * (k + 1));
                now += duration_ms;
            }
            TickWait::Overrun => panic!("a fast tick must not overrun"),
        }
        s.advance();
        assert_eq!(s.next_deadline_ms, 1000 * (k + 2));
    }
}

#[test]
fn overrun_runs_next_tick_immediately_then_recovers() {
    let mut s = Scheduler::new(1000, 0);
    // Tick 0 takes 1500 ms: past the first deadline.
    assert_eq!(s.decide(1500), TickWait::Overrun);
    s.advance();
    assert_eq!(s.next_deadline_ms, 2000);
    // The catch-up tick starts at 1500 and takes 300 ms: back on the
    // ladder with a sleep to the 2000 ms deadline.
    assert_eq!(s.decide(1800), TickWait::Sleep { duration_ms: 200 });
    s.advance();
    assert_eq!(s.next_deadline_ms, 3000);
}

#[test]
fn deadline_advances_by_exactly_one_interval_per_tick() {
    let mut s = Scheduler::new(700, 100);
    assert_eq!(s.next_deadline_ms, 800);
    // Even when the clock is far past the deadline, the ladder moves
    // one rung, never to "now plus interval".
    assert_eq!(s.decide(5000), TickWait::Overrun);
    s.advance();
    assert_eq!(s.next_deadline_ms, 1500);
}

#[test]
fn consecutive_overruns_run_back_to_back_until_caught_up() {
    let mut s = Scheduler::new(1000, 0);
    // Tick 0 runs from 0 to 3500 ms, blowing through three deadlines.
    // The ladder still advances one rung per tick — no rung is skipped
    // and no extra ticks fire for the lost time.
    assert_eq!(s.decide(3500), TickWait::Overrun);
    s.advance();
    assert_eq!(s.next_deadline_ms, 2000);
    assert_eq!(s.decide(3600), TickWait::Overrun);
    s.advance();
    assert_eq!(s.next_deadline_ms, 3000);
    assert_eq!(s.decide(3700), TickWait::Overrun);
    s.advance();
    assert_eq!(s.next_deadline_ms, 4000);
    // The ladder has caught up with the clock: sleeping resumes.
    assert_eq!(s.decide(3800), TickWait::Sleep { duration_ms: 200 });
}

#[test]
fn display_acquire_failure_stops_before_any_fetch() {
    let config = ServiceConfig::example_config();
    let mut service = WeatherFrameService::new(config);
    assert_eq!(service.pending_action(), Action::AcquireDisplay);
    let a = service.step(Event::DisplayAcquireFailed);
    assert_eq!(
        a,
        Action::Stop {
            error: ServiceError::DisplayInitFailure
        }
    );
    // Whatever is reported afterwards, the run only ever asks to stop.
    for e in [Event::FetchSucceeded, Event::TickArrived, Event::RenderSucceeded] {
        let a = service.step(e);
        assert_ne!(a, Action::FetchWeather);
        assert_eq!(
            a,
            Action::Stop {
                error: ServiceError::DisplayInitFailure
            }
        );
    }
}

#[test]
fn run_reaches_fetch_only_after_display_is_ready() {
    let mut service = WeatherFrameService::new(ServiceConfig::example_config());
    let a = service.step(Event::DisplayAcquireSucceeded);
    assert_eq!(a, Action::InitializeDisplay);
    let a = service.step(Event::DisplayInitSucceeded);
    assert_eq!(a, Action::FetchWeather);
    let a = service.step(Event::FetchSucceeded);
    assert_eq!(a, Action::RenderFrame);
    let a = service.step(Event::RenderSucceeded);
    assert_eq!(a, Action::AwaitTick);
    let a = service.step(Event::TickArrived);
    assert_eq!(a, Action::FetchWeather);
    assert_eq!(service.phase, Phase::Fetching);
}

#[test]
fn fetch_and_render_failures_are_fatal() {
    let mut service = WeatherFrameService::new(ServiceConfig::example_config());
    service.step(Event::DisplayAcquireSucceeded);
    service.step(Event::DisplayInitSucceeded);
    let a = service.step(Event::FetchFailed);
    assert_eq!(
        a,
        Action::Stop {
            error: ServiceError::FetchFailure
        }
    );

    let mut service = WeatherFrameService::new(ServiceConfig::example_config());
    service.step(Event::DisplayAcquireSucceeded);
    service.step(Event::DisplayInitSucceeded);
    service.step(Event::FetchSucceeded);
    let a = service.step(Event::RenderFailed);
    assert_eq!(
        a,
        Action::Stop {
            error: ServiceError::RenderFailure
        }
    );
}

#[test]
fn display_init_failure_is_fatal() {
    let mut service = WeatherFrameService::new(ServiceConfig::example_config());
    service.step(Event::DisplayAcquireSucceeded);
    let a = service.step(Event::DisplayInitFailed);
    assert_eq!(
        a,
        Action::Stop {
            error: ServiceError::DisplayInitFailure
        }
    );
}

#[test]
fn coordinate_validation_is_exact() {
    let inside = Coordinates {
        lat_microdeg: 90_000_000,
        lon_microdeg: -180_000_000,
    };
    assert!(inside.validate());
    let outside = Coordinates {
        lat_microdeg: -90_000_001,
        lon_microdeg: 0,
    };
    assert!(!outside.validate());
}
