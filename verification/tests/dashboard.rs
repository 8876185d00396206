use outbreak_gateway::dashboard::{
    dashboard_snapshot, generate_map_data, make_hotspot, standing_alerts, symptom_series,
    BASE_LAT_MICRO, BASE_LON_MICRO, JITTER_MICRO, RISK_SCALE,
};

#[test]
fn snapshot_fixed_aggregates() {
    let d = dashboard_snapshot();
    assert_eq!(d.total_cases, 5432);
    assert_eq!(d.active_alerts, 17);
    assert_eq!(d.symptom_data.len(), 6);
    assert_eq!(d.map_hotspots.len(), 10);
    assert_eq!(d.alerts.len(), 3);
}

#[test]
fn snapshot_hotspots_in_bounds() {
    let d = dashboard_snapshot();
    for (i, h) in d.map_hotspots.iter().enumerate() {
        assert_eq!(h.id as usize, i);
        assert!(h.risk_milli <= RISK_SCALE);
        assert!(5 <= h.cases && h.cases <= 70);
        assert!(BASE_LAT_MICRO - JITTER_MICRO <= h.lat_micro);
        assert!(h.lat_micro <= BASE_LAT_MICRO + JITTER_MICRO);
        assert!(BASE_LON_MICRO - JITTER_MICRO <= h.lon_micro);
        assert!(h.lon_micro <= BASE_LON_MICRO + JITTER_MICRO);
    }
}

#[test]
fn hotspot_names_cycle() {
    let hs = generate_map_data(12);
    assert_eq!(hs.len(), 12);
    assert_eq!(hs[0].location.as_str(), "Pahadi Gaon");
    assert_eq!(hs[1].location.as_str(), "Jungle Basti");
    assert_eq!(hs[9].location.as_str(), "Nayapalli");
    assert_eq!(hs[10].location.as_str(), "Pahadi Gaon");
    assert_eq!(hs[11].location.as_str(), "Jungle Basti");
    assert_eq!(hs[0].disease.as_str(), "Cholera");
    assert_eq!(hs[1].disease.as_str(), "Typhoid");
    assert_eq!(hs[2].disease.as_str(), "Hepatitis A");
    assert_eq!(hs[3].disease.as_str(), "Diarrhea");
    assert_eq!(hs[4].disease.as_str(), "Cholera");
    assert_eq!(hs[11].disease.as_str(), "Diarrhea");
}

#[test]
fn make_hotspot_concrete() {
    let h = make_hotspot(3, 500, 10, -JITTER_MICRO, JITTER_MICRO);
    assert_eq!(h.id, 3);
    assert_eq!(h.location.as_str(), "Hilltop Village");
    assert_eq!(h.disease.as_str(), "Diarrhea");
    assert_eq!(h.risk_milli, 500);
    assert_eq!(h.cases, 10);
    assert_eq!(h.lat_micro, BASE_LAT_MICRO - JITTER_MICRO);
    assert_eq!(h.lon_micro, BASE_LON_MICRO + JITTER_MICRO);
}

#[test]
fn symptom_series_exact() {
    let s = symptom_series();
    let want = [
        ("May", 25),
        ("Jun", 35),
        ("Jul", 30),
        ("Aug", 20),
        ("Sep", 28),
        ("Oct", 40),
    ];
    assert_eq!(s.len(), want.len());
    for (p, (label, value)) in s.iter().zip(want.iter()) {
        assert_eq!(p.label.as_str(), *label);
        assert_eq!(p.value, *value);
    }
}

#[test]
fn standing_alerts_exact() {
    let a = standing_alerts();
    assert_eq!(a.len(), 3);
    assert_eq!(
        a[0].message.as_str(),
        "Confirmed Cholera outbreak in village 'Pahadi Gaon'"
    );
    assert_eq!(a[0].alert_type.as_str(), "critical");
    assert_eq!(
        a[1].message.as_str(),
        "Water turbidity levels rising in source 'Bhagirathi'"
    );
    assert_eq!(a[1].alert_type.as_str(), "warning");
    assert_eq!(
        a[2].message.as_str(),
        "Spike in fever symptoms reported via mobile app"
    );
    assert_eq!(a[2].alert_type.as_str(), "info");
}
