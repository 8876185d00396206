//! The prediction gateway: classifies the outcome of the one outbound
//! call, parsing a successful upstream body into the expected result
//! shape, and maps the classified outcome to the client-facing HTTP
//! reply. Classification and mapping stand apart so that the mapping
//! policy can change independently of the transport mechanics.

use vstd::prelude::*;
use vstd::string::*;
use crate::model::{HttpReply, PredictionResult, UpstreamOutcome};
use crate::json::{render_result, spec_plot_view, spec_result_json};

verus! {

/// The upstream client's classified outcome: a parsed result, a
/// rejection carrying the upstream's status and error text, a success
/// whose body did not have the expected shape, or a transport-level
/// failure.
pub enum ClassifiedOutcome {
    Parsed(PredictionResult),
    Rejected { status: u16, body: Option<String> },
    ShapeMismatch,
    TransportError,
}

/// What parsing an upstream body yields: nothing when the body is not
/// a JSON object carrying a numeric `prediction` and a string
/// `outbreak_risk`; otherwise the score's JSON number text, the risk
/// label, and the artifact string when one is present and non-null.
/// The outcome depends on the body text alone.
pub uninterp spec fn parsed_prediction(body: Seq<char>) -> Option<(Seq<char>, Seq<char>, Option<Seq<char>>)>;

/// Relies on serde_json::from_str, serde_json::Value::get,
/// Value::is_number, Value::as_str, Value::is_null and
/// serde_json::to_string: splits a JSON object into the three
/// prediction fields, keeping the score as its JSON number text.
#[verifier::external_body]
fn parse_upstream_body(body: &str) -> (r: Option<(String, String, Option<String>)>)
    ensures
        r is Some <==> parsed_prediction(body@) is Some,
        r matches Some(t) ==> parsed_prediction(body@) matches Some(p)
            && t.0@ == p.0
            && t.1@ == p.1
            && (t.2 matches Some(q) ==> p.2 matches Some(u) && q@ == u)
            && (t.2 is None ==> p.2 is None),
{
    let v: serde_json::Value = serde_json::from_str(body).ok()?;
    let pred = v.get("prediction")?;
    if !pred.is_number() {
        return None;
    }
    let prediction = serde_json::to_string(pred).ok()?;
    let outbreak_risk = v.get("outbreak_risk")?.as_str()?.to_string();
    let plot = match v.get("seaborn_plot") {
        Some(p) if !p.is_null() => Some(p.as_str()?.to_string()),
        _ => None,
    };
    Some((prediction, outbreak_risk, plot))
}

/// The fixed diagnostic sent when the outbound call itself failed.
pub open spec fn transport_failure_note() -> Seq<char> {
    "Failed to connect to Python service"@
}

/// The fixed diagnostic sent when a successful upstream response did
/// not carry the expected result shape.
pub open spec fn parse_failure_note() -> Seq<char> {
    "Failed to parse prediction response"@
}

/// The fixed prefix put before the upstream's own error text.
pub open spec fn upstream_error_prefix() -> Seq<char> {
    "Python service error: "@
}

/// The placeholder used when the upstream's error text is unavailable.
pub open spec fn unknown_error_note() -> Seq<char> {
    "Unknown error"@
}

/// Whether an upstream status code counts as success.
pub open spec fn spec_status_success(status: u16) -> bool {
    200 <= status && status < 300
}

/// The error text taken from a non-success response: its body when it
/// could be read, the placeholder otherwise.
pub open spec fn spec_error_text(body: Option<String>) -> Seq<char> {
    match body {
        Some(b) => b@,
        None => unknown_error_note(),
    }
}

/// What parsing the body of a successful response yields; an unreadable
/// body parses as nothing.
pub open spec fn spec_parse_outcome(body: Option<String>) -> Option<(Seq<char>, Seq<char>, Option<Seq<char>>)> {
    match body {
        Some(b) => parsed_prediction(b@),
        None => None,
    }
}

/// Classifies what the outbound call produced: a transport failure
/// stays one; a non-success response becomes a rejection that keeps
/// the status and the body text; a success parses into the result,
/// verbatim field by field, or is marked as a shape mismatch.
pub fn classify_outcome(outcome: UpstreamOutcome) -> (r: ClassifiedOutcome)
    ensures
        outcome is TransportFailed ==> r is TransportError,
        outcome matches UpstreamOutcome::Replied { status, body } ==> {
            &&& !spec_status_success(status)
                ==> (r matches ClassifiedOutcome::Rejected { status: s, body: b }
                    && s == status && b == body)
            &&& spec_status_success(status) && spec_parse_outcome(body) is None
                ==> r is ShapeMismatch
            &&& spec_status_success(status)
                ==> (spec_parse_outcome(body) matches Some(p)
                    ==> (r matches ClassifiedOutcome::Parsed(res)
                        && res.prediction@ == p.0
                        && res.outbreak_risk@ == p.1
                        && spec_plot_view(res.seaborn_plot) == p.2))
        },
{
    match outcome {
        UpstreamOutcome::TransportFailed => ClassifiedOutcome::TransportError,
        UpstreamOutcome::Replied { status, body } => {
            if 200 <= status && status < 300 {
                let parsed = match &body {
                    Some(b) => parse_upstream_body(b.as_str()),
                    None => None,
                };
                match parsed {
                    Some(t) => ClassifiedOutcome::Parsed(PredictionResult {
                        prediction: t.0,
                        outbreak_risk: t.1,
                        seaborn_plot: t.2,
                    }),
                    None => ClassifiedOutcome::ShapeMismatch,
                }
            } else {
                ClassifiedOutcome::Rejected { status, body }
            }
        },
    }
}

/// The fixed mapping policy from a classified outcome to the client's
/// reply: a parsed result is re-serialized under 200; a rejection
/// becomes 502 carrying the upstream's own text after the fixed prefix,
/// whatever the upstream status was; a shape mismatch and a transport
/// failure each become 500 with their fixed diagnostic — never a 502
/// and never parser internals.
pub fn reply_for(outcome: ClassifiedOutcome) -> (r: HttpReply)
    ensures
        outcome is TransportError ==> r.status == 500 && r.body@ == transport_failure_note(),
        outcome is ShapeMismatch ==> r.status == 500 && r.body@ == parse_failure_note(),
        outcome matches ClassifiedOutcome::Rejected { status, body }
            ==> r.status == 502 && r.body@ == upstream_error_prefix() + spec_error_text(body),
        outcome matches ClassifiedOutcome::Parsed(res)
            ==> r.status == 200
                && r.body@ == spec_result_json(
                    res.prediction@,
                    res.outbreak_risk@,
                    spec_plot_view(res.seaborn_plot),
                ),
{
    match outcome {
        ClassifiedOutcome::TransportError => HttpReply {
            status: 500,
            body: String::from_str("Failed to connect to Python service"),
        },
        ClassifiedOutcome::ShapeMismatch => HttpReply {
            status: 500,
            body: String::from_str("Failed to parse prediction response"),
        },
        ClassifiedOutcome::Rejected { status: _, body } => {
            let text = match body {
                Some(b) => b,
                None => String::from_str("Unknown error"),
            };
            let mut msg = String::from_str("Python service error: ");
            msg.append(text.as_str());
            HttpReply { status: 502, body: msg }
        },
        ClassifiedOutcome::Parsed(res) => HttpReply {
            status: 200,
            body: render_result(&res),
        },
    }
}

/// An upstream rejection's reply body carries the upstream's text
/// verbatim: the body is the fixed prefix followed by exactly that
/// text, so the text stands unaltered as the body's suffix.
pub proof fn lemma_upstream_text_verbatim(r: HttpReply, text: Seq<char>)
    requires
        r.body@ == upstream_error_prefix() + text,
    ensures
        r.body@.subrange(upstream_error_prefix().len() as int, r.body@.len() as int) == text,
{
    assert(r.body@.subrange(upstream_error_prefix().len() as int, r.body@.len() as int) =~= text);
}

/// Maps the outcome of the one outbound call to the client's reply:
/// 200 with the result re-serialized field for field when the upstream
/// succeeded with a well-formed body; 502 carrying the upstream's own
/// text after a fixed prefix when it replied with a non-success status;
/// 500 with a fixed diagnostic — never a 502 and never parser internals
/// — when the transport failed or the body did not have the expected
/// shape.
pub fn gateway_reply(outcome: UpstreamOutcome) -> (r: HttpReply)
    ensures
        outcome is TransportFailed ==> r.status == 500 && r.body@ == transport_failure_note(),
        outcome matches UpstreamOutcome::Replied { status, body } ==> {
            &&& !spec_status_success(status)
                ==> r.status == 502 && r.body@ == upstream_error_prefix() + spec_error_text(body)
            &&& spec_status_success(status) && spec_parse_outcome(body) is None
                ==> r.status == 500 && r.body@ == parse_failure_note()
            &&& spec_status_success(status)
                ==> (spec_parse_outcome(body) matches Some(p)
                    ==> r.status == 200 && r.body@ == spec_result_json(p.0, p.1, p.2))
        },
{
    reply_for(classify_outcome(outcome))
}

} // verus!
