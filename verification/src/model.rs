//! The gateway's data contracts: the client prediction request, the
//! upstream inference result, the outcome of the one outbound call, and
//! the client-facing HTTP reply, together with the JSON number grammar
//! that feature values must satisfy.

use vstd::prelude::*;
use vstd::string::*;

verus! {

/// One feature handed to the prediction service: its name and the
/// numeric value, kept as the value's JSON number text so that it is
/// forwarded verbatim.
pub struct Feature {
    pub name: String,
    pub value: String,
}

/// A client-submitted feature vector for inference. Well-formed when it
/// is non-empty and every value is a JSON number token (hence finite).
pub struct PredictionRequest {
    pub features: Vec<Feature>,
}

/// The upstream's inference outcome, held verbatim: the score as the
/// JSON number text the upstream sent, the categorical risk label, and
/// the optional rendered-artifact string.
pub struct PredictionResult {
    pub prediction: String,
    pub outbreak_risk: String,
    pub seaborn_plot: Option<String>,
}

/// What the one outbound call produced: either a response, with its
/// status code and its body text (`None` when the body could not be
/// read), or a transport-level failure before any response arrived.
pub enum UpstreamOutcome {
    Replied { status: u16, body: Option<String> },
    TransportFailed,
}

/// The gateway's client-facing result: an HTTP status code and a body.
pub struct HttpReply {
    pub status: u16,
    pub body: String,
}

/// Whether `c` is a decimal digit.
pub open spec fn spec_is_digit(c: char) -> bool {
    '0' <= c && c <= '9'
}

/// One step of the JSON number automaton. States:
/// 0 before anything; 1 after the minus sign; 2 integer part is a lone
/// zero; 3 inside a nonzero integer part; 4 right after the decimal
/// point; 5 inside the fraction digits; 6 right after the exponent
/// letter; 7 right after the exponent sign; 8 inside the exponent
/// digits; 9 dead. Accepting states are 2, 3, 5 and 8.
pub open spec fn num_step(st: u8, c: char) -> u8 {
    if st == 0 {
        if c == '-' { 1 } else if c == '0' { 2 } else if spec_is_digit(c) { 3 } else { 9 }
    } else if st == 1 {
        if c == '0' { 2 } else if spec_is_digit(c) { 3 } else { 9 }
    } else if st == 2 {
        if c == '.' { 4 } else if c == 'e' || c == 'E' { 6 } else { 9 }
    } else if st == 3 {
        if spec_is_digit(c) { 3 } else if c == '.' { 4 } else if c == 'e' || c == 'E' { 6 } else { 9 }
    } else if st == 4 {
        if spec_is_digit(c) { 5 } else { 9 }
    } else if st == 5 {
        if spec_is_digit(c) { 5 } else if c == 'e' || c == 'E' { 6 } else { 9 }
    } else if st == 6 {
        if c == '+' || c == '-' { 7 } else if spec_is_digit(c) { 8 } else { 9 }
    } else if st == 7 {
        if spec_is_digit(c) { 8 } else { 9 }
    } else if st == 8 {
        if spec_is_digit(c) { 8 } else { 9 }
    } else {
        9
    }
}

/// The automaton's state after reading all of `s`, starting from `st`.
pub open spec fn num_scan(st: u8, s: Seq<char>) -> u8
    decreases s.len(),
{
    if s.len() == 0 {
        st
    } else {
        num_scan(num_step(st, s[0]), s.drop_first())
    }
}

/// Whether `s` is a JSON number token: an optional minus sign, an
/// integer part without a superfluous leading zero, an optional
/// fraction and an optional exponent.
pub open spec fn is_json_number(s: Seq<char>) -> bool {
    let f = num_scan(0, s);
    f == 2 || f == 3 || f == 5 || f == 8
}

/// The executable automaton step.
fn advance(st: u8, c: char) -> (r: u8)
    ensures
        r == num_step(st, c),
{
    let digit: bool = '0' <= c && c <= '9';
    if st == 0 {
        if c == '-' { 1 } else if c == '0' { 2 } else if digit { 3 } else { 9 }
    } else if st == 1 {
        if c == '0' { 2 } else if digit { 3 } else { 9 }
    } else if st == 2 {
        if c == '.' { 4 } else if c == 'e' || c == 'E' { 6 } else { 9 }
    } else if st == 3 {
        if digit { 3 } else if c == '.' { 4 } else if c == 'e' || c == 'E' { 6 } else { 9 }
    } else if st == 4 {
        if digit { 5 } else { 9 }
    } else if st == 5 {
        if digit { 5 } else if c == 'e' || c == 'E' { 6 } else { 9 }
    } else if st == 6 {
        if c == '+' || c == '-' { 7 } else if digit { 8 } else { 9 }
    } else if st == 7 {
        if digit { 8 } else { 9 }
    } else if st == 8 {
        if digit { 8 } else { 9 }
    } else {
        9
    }
}

/// Decides whether `s` is a JSON number token.
pub fn check_json_number(s: &str) -> (b: bool)
    ensures
        b == is_json_number(s@),
{
    let n: usize = s.unicode_len();
    let mut st: u8 = 0;
    let mut i: usize = 0;
    proof {
        assert(s@.skip(0) =~= s@);
    }
    while i < n
        invariant
            0 <= i <= n,
            n == s@.len(),
            num_scan(0, s@) == num_scan(st, s@.skip(i as int)),
        decreases n - i,
    {
        let c = s.get_char(i);
        proof {
            assert(s@.skip(i as int).len() > 0);
            assert(s@.skip(i as int)[0] == s@[i as int]);
            assert(s@.skip(i as int).drop_first() =~= s@.skip(i as int + 1));
        }
        st = advance(st, c);
        i = i + 1;
    }
    proof {
        assert(s@.skip(n as int) =~= Seq::<char>::empty());
    }
    st == 2 || st == 3 || st == 5 || st == 8
}

/// The request's well-formedness: at least one feature, every value a
/// JSON number token.
pub open spec fn request_wf(features: Seq<Feature>) -> bool {
    &&& features.len() > 0
    &&& forall|i: int| 0 <= i < features.len() ==> is_json_number(#[trigger] features[i].value@)
}

impl PredictionRequest {
    /// The request's invariant, as a predicate on the held features.
    pub open spec fn wf(&self) -> bool {
        request_wf(self.features@)
    }

    /// Builds a request from the given features, accepting exactly the
    /// well-formed ones.
    pub fn new(features: Vec<Feature>) -> (r: Option<PredictionRequest>)
        ensures
            r matches Some(q) ==> q.features == features && q.wf(),
            r is None <==> !request_wf(features@),
    {
        if features.len() == 0 {
            return None;
        }
        let n: usize = features.len();
        let mut i: usize = 0;
        while i < n
            invariant
                0 <= i <= n,
                n == features@.len(),
                forall|j: int| 0 <= j < i ==> is_json_number(#[trigger] features@[j].value@),
            decreases n - i,
        {
            if !check_json_number(features[i].value.as_str()) {
                return None;
            }
            i = i + 1;
        }
        Some(PredictionRequest { features })
    }
}

} // verus!
