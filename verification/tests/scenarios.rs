use soil_node::ambient::HumidityStatus;
use soil_node::connectivity::{ConnectionState, ConnectivityManager, RadioEvent};
use soil_node::moisture::{MoistureError, SoilMoisture, SoilStatus};
use soil_node::sampler::sample_cycle;
use soil_node::webhook::{CycleOutcome, TransportCycle, WebhookPublisher};

#[test]
fn scenario_disconnected_probe_reports_no_number() {
    let mut probe = SoilMoisture::new().unwrap();
    probe.supply_raw(500);
    assert!(matches!(
        probe.get_moisture_precentage(),
        Err(MoistureError::SensorNotConnected())
    ));
    assert_eq!(probe.get_soil_status(), None);
    // The cycle record carries no numeric percentage at all.
    let reading = sample_cycle(None, None, None, &probe);
    assert_eq!(reading.soil_moisture, None);
    assert_eq!(reading.soil_status, None);
}

#[test]
fn scenario_midpoint_reading_is_damp() {
    let mut probe = SoilMoisture::new().unwrap();
    probe.supply_raw(2050);
    let pct = probe.get_moisture_precentage().unwrap();
    assert_eq!(pct, 5000);
    assert_eq!(pct as f64 / 100.0, 50.0);
    assert_eq!(probe.get_soil_status(), Some(SoilStatus::Damp));
}

#[test]
fn scenario_humid_afternoon_is_moist() {
    let mut probe = SoilMoisture::new().unwrap();
    probe.supply_raw(2050);
    // 65.00 % relative humidity.
    let reading = sample_cycle(None, Some(6500), None, &probe);
    assert_eq!(reading.humidity, Some(6500));
    assert_eq!(reading.humidity_status, Some(HumidityStatus::Moist));
    assert_eq!(reading.soil_moisture, Some(5000));
    assert_eq!(reading.soil_status, Some(SoilStatus::Damp));
}

#[test]
fn scenario_resolver_down_three_cycles_leaves_radio_alone() {
    let mut mgr = ConnectivityManager::new("field-net".to_string(), "secret".to_string());
    mgr.handle(RadioEvent::Tick);
    mgr.handle(RadioEvent::StartComplete);
    mgr.handle(RadioEvent::ConnectSucceeded);
    assert_eq!(mgr.current_state(), ConnectionState::Connected);

    let mut publisher = WebhookPublisher::new("hooks.example".to_string(), "/report".to_string());
    let mut aborts = 0;
    for _ in 0..3 {
        let (outcome, attempt) = publisher.run_cycle(TransportCycle {
            resolved: None,
            connect_ok: false,
            send_ok: false,
        });
        assert_eq!(outcome, CycleOutcome::AbortedResolve);
        assert_eq!(attempt.resolved_address, None);
        aborts += 1;
    }
    assert_eq!(aborts, 3);
    // The connectivity state machine is unaffected by the failing publisher.
    assert_eq!(mgr.current_state(), ConnectionState::Connected);
}

#[test]
fn scenario_resolver_down_hundred_cycles_stays_stable() {
    let mut publisher = WebhookPublisher::new("hooks.example".to_string(), "/report".to_string());
    for _ in 0..100 {
        let (outcome, attempt) = publisher.run_cycle(TransportCycle {
            resolved: None,
            connect_ok: true,
            send_ok: true,
        });
        assert_eq!(outcome, CycleOutcome::AbortedResolve);
        assert_eq!(attempt.resolved_address, None);
        assert_eq!(attempt.connect_result, None);
        assert_eq!(attempt.send_result, None);
        assert_eq!(publisher.host().as_str(), "hooks.example");
        assert_eq!(publisher.path().as_str(), "/report");
    }
}
