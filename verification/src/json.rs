//! Verified JSON text construction: string escaping, the serialized
//! form of a prediction request, and the serialized form of an
//! upstream prediction result.

use vstd::prelude::*;
use vstd::string::*;
use crate::model::{Feature, PredictionRequest, PredictionResult};

verus! {

/// The hexadecimal digit for a value below sixteen.
pub open spec fn spec_hex_digit(n: u8) -> char {
    if n == 0 { '0' } else if n == 1 { '1' } else if n == 2 { '2' } else if n == 3 { '3' }
    else if n == 4 { '4' } else if n == 5 { '5' } else if n == 6 { '6' } else if n == 7 { '7' }
    else if n == 8 { '8' } else if n == 9 { '9' } else if n == 10 { 'a' } else if n == 11 { 'b' }
    else if n == 12 { 'c' } else if n == 13 { 'd' } else if n == 14 { 'e' } else { 'f' }
}

fn hex_digit(n: u8) -> (c: char)
    requires
        n < 16,
    ensures
        c == spec_hex_digit(n),
{
    if n == 0 { '0' } else if n == 1 { '1' } else if n == 2 { '2' } else if n == 3 { '3' }
    else if n == 4 { '4' } else if n == 5 { '5' } else if n == 6 { '6' } else if n == 7 { '7' }
    else if n == 8 { '8' } else if n == 9 { '9' } else if n == 10 { 'a' } else if n == 11 { 'b' }
    else if n == 12 { 'c' } else if n == 13 { 'd' } else if n == 14 { 'e' } else { 'f' }
}

/// How one character appears inside a JSON string literal: the quote
/// and the backslash are escaped, the named control characters get
/// their short escapes, the remaining control characters a hexadecimal
/// escape, and every other character stands for itself.
pub open spec fn spec_escape_char(c: char) -> Seq<char> {
    if c == '"' { seq!['\\', '"'] }
    else if c == '\\' { seq!['\\', '\\'] }
    else if c == '\u{8}' { seq!['\\', 'b'] }
    else if c == '\t' { seq!['\\', 't'] }
    else if c == '\n' { seq!['\\', 'n'] }
    else if c == '\u{c}' { seq!['\\', 'f'] }
    else if c == '\r' { seq!['\\', 'r'] }
    else if (c as u32) < 32 {
        seq!['\\', 'u', '0', '0',
            spec_hex_digit((c as u32 / 16) as u8), spec_hex_digit((c as u32 % 16) as u8)]
    } else {
        seq![c]
    }
}

/// The JSON string escaping of a whole character sequence.
pub open spec fn spec_escape(s: Seq<char>) -> Seq<char>
    decreases s.len(),
{
    if s.len() == 0 {
        Seq::empty()
    } else {
        spec_escape_char(s[0]) + spec_escape(s.drop_first())
    }
}

/// Escaping distributes over appending one character at the end.
proof fn lemma_escape_push(s: Seq<char>, c: char)
    ensures
        spec_escape(s.push(c)) == spec_escape(s) + spec_escape_char(c),
    decreases s.len(),
{
    if s.len() == 0 {
        assert(s.push(c)[0] == c);
        assert(s.push(c).drop_first() =~= Seq::<char>::empty());
        assert(spec_escape_char(c) + spec_escape(Seq::<char>::empty()) =~= spec_escape_char(c));
        assert(spec_escape(s) + spec_escape_char(c) =~= spec_escape_char(c));
    } else {
        assert(s.push(c)[0] == s[0]);
        assert(s.push(c).drop_first() =~= s.drop_first().push(c));
        lemma_escape_push(s.drop_first(), c);
        assert((spec_escape_char(s[0]) + spec_escape(s.drop_first())) + spec_escape_char(c)
            =~= spec_escape_char(s[0]) + (spec_escape(s.drop_first()) + spec_escape_char(c)));
    }
}

/// Relies on String::push of std: appends the one character at the end
/// of the string.
#[verifier::external_body]
fn push_char(out: &mut String, c: char)
    ensures
        final(out)@ == old(out)@ + seq![c],
{
    out.push(c)
}

/// Appends the JSON string escaping of `s` to `out`.
pub fn escape_onto(out: &mut String, s: &str)
    ensures
        final(out)@ == old(out)@ + spec_escape(s@),
{
    let n: usize = s.unicode_len();
    let mut i: usize = 0;
    proof {
        assert(s@.take(0) =~= Seq::<char>::empty());
        assert(old(out)@ + spec_escape(s@.take(0)) =~= old(out)@);
    }
    while i < n
        invariant
            0 <= i <= n,
            n == s@.len(),
            out@ == old(out)@ + spec_escape(s@.take(i as int)),
        decreases n - i,
    {
        let c = s.get_char(i);
        proof {
            assert(s@.take(i as int + 1) =~= s@.take(i as int).push(s@[i as int]));
            lemma_escape_push(s@.take(i as int), s@[i as int]);
        }
        if c == '"' {
            push_char(out, '\\');
            push_char(out, '"');
        } else if c == '\\' {
            push_char(out, '\\');
            push_char(out, '\\');
        } else if c == '\u{8}' {
            push_char(out, '\\');
            push_char(out, 'b');
        } else if c == '\t' {
            push_char(out, '\\');
            push_char(out, 't');
        } else if c == '\n' {
            push_char(out, '\\');
            push_char(out, 'n');
        } else if c == '\u{c}' {
            push_char(out, '\\');
            push_char(out, 'f');
        } else if c == '\r' {
            push_char(out, '\\');
            push_char(out, 'r');
        } else if (c as u32) < 32 {
            let v: u32 = c as u32;
            push_char(out, '\\');
            push_char(out, 'u');
            push_char(out, '0');
            push_char(out, '0');
            push_char(out, hex_digit((v / 16) as u8));
            push_char(out, hex_digit((v % 16) as u8));
        } else {
            push_char(out, c);
        }
        proof {
            assert(out@ =~= old(out)@ + spec_escape(s@.take(i as int + 1)));
        }
        i = i + 1;
    }
    proof {
        assert(s@.take(n as int) =~= s@);
    }
}

/// The serialized form of one feature: the escaped name in quotes, a
/// colon, and the number text verbatim.
pub open spec fn spec_feature_json(f: Feature) -> Seq<char> {
    seq!['"'] + spec_escape(f.name@) + seq!['"', ':'] + f.value@
}

/// The serialized forms of the first `i` features, joined with commas.
pub open spec fn spec_features_prefix(fs: Seq<Feature>, i: int) -> Seq<char>
    decreases i,
{
    if i <= 0 {
        Seq::empty()
    } else if i == 1 {
        spec_feature_json(fs[0])
    } else {
        spec_features_prefix(fs, i - 1) + seq![','] + spec_feature_json(fs[i - 1])
    }
}

/// The serialized form of a whole request: an object with one
/// `features` member holding the features as an object, in order.
pub open spec fn spec_request_json(fs: Seq<Feature>) -> Seq<char> {
    "{\"features\":{"@ + spec_features_prefix(fs, fs.len() as int) + "}}"@
}

/// Serializes a request as the JSON body of the outbound call.
pub fn request_json(req: &PredictionRequest) -> (r: String)
    ensures
        r@ == spec_request_json(req.features@),
{
    let mut out = String::from_str("{\"features\":{");
    let n: usize = req.features.len();
    let mut i: usize = 0;
    while i < n
        invariant
            0 <= i <= n,
            n == req.features@.len(),
            out@ == "{\"features\":{"@ + spec_features_prefix(req.features@, i as int),
        decreases n - i,
    {
        if i > 0 {
            push_char(&mut out, ',');
        }
        push_char(&mut out, '"');
        escape_onto(&mut out, req.features[i].name.as_str());
        push_char(&mut out, '"');
        push_char(&mut out, ':');
        out.append(req.features[i].value.as_str());
        proof {
            let fs = req.features@;
            if i == 0 {
                assert(spec_features_prefix(fs, 1) == spec_feature_json(fs[0]));
                assert(out@ =~= "{\"features\":{"@ + spec_features_prefix(fs, 1));
            } else {
                assert(out@ =~= "{\"features\":{"@ + spec_features_prefix(fs, i as int + 1));
            }
        }
        i = i + 1;
    }
    out.append("}}");
    proof {
        assert(out@ =~= spec_request_json(req.features@));
    }
    out
}

/// The optional artifact member: present with the escaped text when the
/// upstream sent one, absent otherwise.
pub open spec fn spec_plot_part(plot: Option<Seq<char>>) -> Seq<char> {
    match plot {
        Some(p) => ",\"seaborn_plot\":\""@ + spec_escape(p) + "\""@,
        None => Seq::empty(),
    }
}

/// The serialized form of an upstream result: the score's number text
/// verbatim, the risk label escaped, the artifact member only when
/// present.
pub open spec fn spec_result_json(prediction: Seq<char>, risk: Seq<char>, plot: Option<Seq<char>>) -> Seq<char> {
    "{\"prediction\":"@ + prediction + ",\"outbreak_risk\":\""@ + spec_escape(risk) + "\""@
        + spec_plot_part(plot) + "}"@
}

/// The view of the optional artifact string.
pub open spec fn spec_plot_view(plot: Option<String>) -> Option<Seq<char>> {
    match plot {
        Some(p) => Some(p@),
        None => None,
    }
}

/// Serializes an upstream result for the client, field for field.
pub fn render_result(res: &PredictionResult) -> (r: String)
    ensures
        r@ == spec_result_json(res.prediction@, res.outbreak_risk@, spec_plot_view(res.seaborn_plot)),
{
    let mut out = String::from_str("{\"prediction\":");
    out.append(res.prediction.as_str());
    out.append(",\"outbreak_risk\":\"");
    escape_onto(&mut out, res.outbreak_risk.as_str());
    out.append("\"");
    match &res.seaborn_plot {
        Some(p) => {
            out.append(",\"seaborn_plot\":\"");
            escape_onto(&mut out, p.as_str());
            out.append("\"");
        },
        None => {},
    }
    out.append("}");
    proof {
        assert(out@ =~= spec_result_json(
            res.prediction@,
            res.outbreak_risk@,
            spec_plot_view(res.seaborn_plot),
        ));
    }
    out
}

} // verus!
