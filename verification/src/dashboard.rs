//! The mock dashboard snapshot: fixed aggregate numbers, a fixed
//! symptom series, fixed alerts, and randomized geolocated hotspots
//! whose names and diseases cycle deterministically by index.
//!
//! Fractional quantities are held as plain integers: a hotspot's risk
//! in thousandths of one, its coordinates in millionths of a degree
//! around the fixed reference point.

use rand::Rng;
use vstd::prelude::*;
use vstd::string::*;

verus! {

/// One point of the monthly symptom series.
pub struct SymptomDataPoint {
    pub label: String,
    pub value: i32,
}

/// A standing alert shown on the dashboard.
pub struct Alert {
    pub message: String,
    pub alert_type: String,
}

/// A geolocated outbreak risk marker. `risk_milli` is the risk in
/// thousandths of one; `lat_micro` and `lon_micro` are coordinates in
/// millionths of a degree.
pub struct MapHotspot {
    pub id: i32,
    pub location: String,
    pub disease: String,
    pub risk_milli: u32,
    pub cases: i32,
    pub lat_micro: i64,
    pub lon_micro: i64,
}

/// The aggregate view handed to the dashboard client.
pub struct DashboardData {
    pub total_cases: i32,
    pub active_alerts: i32,
    pub symptom_data: Vec<SymptomDataPoint>,
    pub map_hotspots: Vec<MapHotspot>,
    pub alerts: Vec<Alert>,
}

/// The reference point's latitude, in millionths of a degree.
pub const BASE_LAT_MICRO: i64 = 20296100;

/// The reference point's longitude, in millionths of a degree.
pub const BASE_LON_MICRO: i64 = 85824500;

/// The largest coordinate jitter, in millionths of a degree: an eighth
/// of a degree either way.
pub const JITTER_MICRO: i64 = 125000;

/// The risk scale: a risk of one is this many thousandths.
pub const RISK_SCALE: u32 = 1000;

/// The settlement name for a hotspot index; the ten names cycle.
pub open spec fn spec_location_name(i: int) -> Seq<char> {
    let k = i % 10;
    if k == 0 { "Pahadi Gaon"@ } else if k == 1 { "Jungle Basti"@ }
    else if k == 2 { "Riverside Town"@ } else if k == 3 { "Hilltop Village"@ }
    else if k == 4 { "Dhalpur"@ } else if k == 5 { "Chandrasekharpur"@ }
    else if k == 6 { "Patia"@ } else if k == 7 { "Saheed Nagar"@ }
    else if k == 8 { "Rasulgarh"@ } else { "Nayapalli"@ }
}

/// The disease name for a hotspot index; the four names cycle.
pub open spec fn spec_disease_name(i: int) -> Seq<char> {
    let k = i % 4;
    if k == 0 { "Cholera"@ } else if k == 1 { "Typhoid"@ }
    else if k == 2 { "Hepatitis A"@ } else { "Diarrhea"@ }
}

/// Picks the settlement name for a hotspot index.
pub fn location_name(i: i32) -> (r: String)
    requires
        i >= 0,
    ensures
        r@ == spec_location_name(i as int),
{
    let k: i32 = i % 10;
    if k == 0 { String::from_str("Pahadi Gaon") } else if k == 1 { String::from_str("Jungle Basti") }
    else if k == 2 { String::from_str("Riverside Town") } else if k == 3 { String::from_str("Hilltop Village") }
    else if k == 4 { String::from_str("Dhalpur") } else if k == 5 { String::from_str("Chandrasekharpur") }
    else if k == 6 { String::from_str("Patia") } else if k == 7 { String::from_str("Saheed Nagar") }
    else if k == 8 { String::from_str("Rasulgarh") } else { String::from_str("Nayapalli") }
}

/// Picks the disease name for a hotspot index.
pub fn disease_name(i: i32) -> (r: String)
    requires
        i >= 0,
    ensures
        r@ == spec_disease_name(i as int),
{
    let k: i32 = i % 4;
    if k == 0 { String::from_str("Cholera") } else if k == 1 { String::from_str("Typhoid") }
    else if k == 2 { String::from_str("Hepatitis A") } else { String::from_str("Diarrhea") }
}

/// A hotspot is well formed for its index when its name and disease
/// are the ones the index selects, its risk lies within one, its case
/// count within the fixed band, and its coordinates within the jitter
/// band around the reference point.
pub open spec fn hotspot_wf(h: MapHotspot, i: int) -> bool {
    &&& h.id == i
    &&& h.location@ == spec_location_name(i)
    &&& h.disease@ == spec_disease_name(i)
    &&& h.risk_milli <= RISK_SCALE
    &&& 5 <= h.cases <= 70
    &&& BASE_LAT_MICRO - JITTER_MICRO <= h.lat_micro <= BASE_LAT_MICRO + JITTER_MICRO
    &&& BASE_LON_MICRO - JITTER_MICRO <= h.lon_micro <= BASE_LON_MICRO + JITTER_MICRO
}

/// Relies on rand::thread_rng and rand::Rng::gen_range: a value drawn
/// uniformly from the inclusive range, which must be non-empty.
#[verifier::external_body]
fn draw_in_range(lo: i64, hi: i64) -> (r: i64)
    requires
        lo <= hi,
    ensures
        lo <= r <= hi,
{
    rand::thread_rng().gen_range(lo..=hi)
}

/// Builds the hotspot for one index from the given draws: the risk in
/// thousandths, the case count, and the two coordinate jitters in
/// millionths of a degree.
pub fn make_hotspot(i: i32, risk_milli: u32, cases: i32, lat_jitter: i64, lon_jitter: i64) -> (h: MapHotspot)
    requires
        i >= 0,
        risk_milli <= RISK_SCALE,
        5 <= cases <= 70,
        -JITTER_MICRO <= lat_jitter <= JITTER_MICRO,
        -JITTER_MICRO <= lon_jitter <= JITTER_MICRO,
    ensures
        hotspot_wf(h, i as int),
{
    MapHotspot {
        id: i,
        location: location_name(i),
        disease: disease_name(i),
        risk_milli,
        cases,
        lat_micro: BASE_LAT_MICRO + lat_jitter,
        lon_micro: BASE_LON_MICRO + lon_jitter,
    }
}

/// Generates the requested number of hotspots, each well formed for its
/// index, with risk, case count and coordinate jitter drawn at random.
pub fn generate_map_data(num_hotspots: i32) -> (r: Vec<MapHotspot>)
    requires
        num_hotspots >= 0,
    ensures
        r@.len() == num_hotspots,
        forall|i: int| 0 <= i < r@.len() ==> hotspot_wf(#[trigger] r@[i], i),
{
    let mut hotspots: Vec<MapHotspot> = Vec::new();
    let mut i: i32 = 0;
    while i < num_hotspots
        invariant
            0 <= i <= num_hotspots,
            hotspots@.len() == i,
            forall|j: int| 0 <= j < hotspots@.len() ==> hotspot_wf(#[trigger] hotspots@[j], j),
        decreases num_hotspots - i,
    {
        let risk_milli: u32 = draw_in_range(0, RISK_SCALE as i64) as u32;
        let cases: i32 = draw_in_range(5, 70) as i32;
        let lat_jitter: i64 = draw_in_range(-JITTER_MICRO, JITTER_MICRO);
        let lon_jitter: i64 = draw_in_range(-JITTER_MICRO, JITTER_MICRO);
        let h = make_hotspot(i, risk_milli, cases, lat_jitter, lon_jitter);
        hotspots.push(h);
        i = i + 1;
    }
    hotspots
}

/// The fixed monthly symptom series: the six labels and values.
pub open spec fn symptom_series_wf(s: Seq<SymptomDataPoint>) -> bool {
    &&& s.len() == 6
    &&& s[0].label@ == "May"@ && s[0].value == 25
    &&& s[1].label@ == "Jun"@ && s[1].value == 35
    &&& s[2].label@ == "Jul"@ && s[2].value == 30
    &&& s[3].label@ == "Aug"@ && s[3].value == 20
    &&& s[4].label@ == "Sep"@ && s[4].value == 28
    &&& s[5].label@ == "Oct"@ && s[5].value == 40
}

/// Builds the fixed monthly symptom series.
pub fn symptom_series() -> (r: Vec<SymptomDataPoint>)
    ensures
        symptom_series_wf(r@),
{
    let mut s: Vec<SymptomDataPoint> = Vec::new();
    s.push(SymptomDataPoint { label: String::from_str("May"), value: 25 });
    s.push(SymptomDataPoint { label: String::from_str("Jun"), value: 35 });
    s.push(SymptomDataPoint { label: String::from_str("Jul"), value: 30 });
    s.push(SymptomDataPoint { label: String::from_str("Aug"), value: 20 });
    s.push(SymptomDataPoint { label: String::from_str("Sep"), value: 28 });
    s.push(SymptomDataPoint { label: String::from_str("Oct"), value: 40 });
    s
}

/// The fixed standing alerts: the three messages and their severities.
pub open spec fn alerts_wf(a: Seq<Alert>) -> bool {
    &&& a.len() == 3
    &&& a[0].message@ == "Confirmed Cholera outbreak in village 'Pahadi Gaon'"@
    &&& a[0].alert_type@ == "critical"@
    &&& a[1].message@ == "Water turbidity levels rising in source 'Bhagirathi'"@
    &&& a[1].alert_type@ == "warning"@
    &&& a[2].message@ == "Spike in fever symptoms reported via mobile app"@
    &&& a[2].alert_type@ == "info"@
}

/// Builds the fixed standing alerts.
pub fn standing_alerts() -> (r: Vec<Alert>)
    ensures
        alerts_wf(r@),
{
    let mut a: Vec<Alert> = Vec::new();
    a.push(Alert {
        message: String::from_str("Confirmed Cholera outbreak in village 'Pahadi Gaon'"),
        alert_type: String::from_str("critical"),
    });
    a.push(Alert {
        message: String::from_str("Water turbidity levels rising in source 'Bhagirathi'"),
        alert_type: String::from_str("warning"),
    });
    a.push(Alert {
        message: String::from_str("Spike in fever symptoms reported via mobile app"),
        alert_type: String::from_str("info"),
    });
    a
}

/// The snapshot's invariant: the fixed aggregates, the six-point
/// symptom series, exactly ten well-formed hotspots, and the three
/// standing alerts.
pub open spec fn snapshot_wf(d: DashboardData) -> bool {
    &&& d.total_cases == 5432
    &&& d.active_alerts == 17
    &&& symptom_series_wf(d.symptom_data@)
    &&& d.map_hotspots@.len() == 10
    &&& forall|i: int| 0 <= i < d.map_hotspots@.len() ==> hotspot_wf(#[trigger] d.map_hotspots@[i], i)
    &&& alerts_wf(d.alerts@)
}

/// Produces the dashboard snapshot served on each call.
pub fn dashboard_snapshot() -> (d: DashboardData)
    ensures
        snapshot_wf(d),
{
    DashboardData {
        total_cases: 5432,
        active_alerts: 17,
        symptom_data: symptom_series(),
        map_hotspots: generate_map_data(10),
        alerts: standing_alerts(),
    }
}

} // verus!
