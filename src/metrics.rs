use vstd::prelude::*;

use prometheus::proto::MetricFamily;
use prometheus::Encoder;

use crate::reply::{is_text_reply, Body, Reply, STATUS_INTERNAL_ERROR, STATUS_OK};

verus! {

#[verifier::external_type_specification]
#[verifier::external_body]
pub struct ExMetricFamily(prometheus::proto::MetricFamily);

#[verifier::external_type_specification]
#[verifier::external_body]
pub struct ExPrometheusError(prometheus::Error);

/// Relies on `prometheus::gather`: the metric families of the process-wide
/// default registry as they stand at the call. They depend on what the
/// process has registered and recorded, so nothing is stated of them.
pub assume_specification[ prometheus::gather ]() -> Vec<prometheus::proto::MetricFamily>;

/// The content type of the text exposition format.
pub open spec fn text_exposition_type() -> Seq<char> {
    "text/plain; version=0.0.4"@
}

/// The kinds of metric family that prometheus knows.
#[derive(Clone, Copy, Debug, PartialEq, Eq, Structural)]
pub enum MetricKind {
    Counter,
    Gauge,
    Summary,
    Untyped,
    Histogram,
}

/// The kind that a metric family declares.
pub uninterp spec fn kind_of(family: MetricFamily) -> MetricKind;

/// Relies on prometheus's `MetricFamily::get_field_type`: the family's
/// declared type, one variant for each of `MetricType`'s.
#[verifier::external_body]
fn family_kind(family: &MetricFamily) -> (k: MetricKind)
    ensures
        k == kind_of(*family),
{
    match family.get_field_type() {
        prometheus::proto::MetricType::COUNTER => MetricKind::Counter,
        prometheus::proto::MetricType::GAUGE => MetricKind::Gauge,
        prometheus::proto::MetricType::SUMMARY => MetricKind::Summary,
        prometheus::proto::MetricType::UNTYPED => MetricKind::Untyped,
        prometheus::proto::MetricType::HISTOGRAM => MetricKind::Histogram,
    }
}

/// The text exposition document that prometheus's encoder writes for
/// `families`, or `None` where it refuses one of them.
pub uninterp spec fn text_exposition_of(families: Seq<MetricFamily>) -> Option<Seq<u8>>;

/// No family of `families` is untyped.
pub open spec fn all_typed(families: Seq<MetricFamily>) -> bool {
    forall|i: int| 0 <= i < families.len() ==> #[trigger] kind_of(families[i]) != MetricKind::Untyped
}

/// Relies on prometheus's `TextEncoder::encode` into a fresh `Vec`. Its
/// output depends on the families alone; it writes nothing for an empty
/// list, and a `Vec` accepts every write, so it fails only on a family without
/// a name or a sample. It panics on an untyped family that has a sample, so
/// untyped families are excluded.
#[verifier::external_body]
fn encode_text(families: &Vec<MetricFamily>) -> (r: Result<Vec<u8>, prometheus::Error>)
    requires
        all_typed(families@),
    ensures
        r is Ok ==> text_exposition_of(families@) == Some(r->Ok_0@),
        r is Err ==> text_exposition_of(families@) is None,
        families@.len() == 0 ==> (r is Ok && r->Ok_0@.len() == 0),
{
    let mut buffer: Vec<u8> = Vec::new();
    match prometheus::TextEncoder::new().encode(families, &mut buffer) {
        Ok(()) => Ok(buffer),
        Err(e) => Err(e),
    }
}

/// Relies on prometheus's `TextEncoder::format_type`: it returns the constant
/// `TEXT_FORMAT`.
#[verifier::external_body]
fn text_format_type() -> (r: String)
    ensures
        r@ == text_exposition_type(),
{
    prometheus::TextEncoder::new().format_type().to_string()
}

/// Why the metrics could not be written out.
#[derive(Clone, Copy, Debug, PartialEq, Eq, Structural)]
pub enum MetricsError {
    /// A family is untyped: the text encoder has no form for it.
    Untyped,
    /// The encoder refused a metric family (one without a name or a sample).
    Encode,
}

/// What encoding `families` gives: an error for an untyped family, else the
/// encoder's document or its refusal.
pub open spec fn encoded_outcome(families: Seq<MetricFamily>) -> Result<Seq<u8>, MetricsError> {
    if !all_typed(families) {
        Err(MetricsError::Untyped)
    } else {
        match text_exposition_of(families) {
            Some(bytes) => Ok(bytes),
            None => Err(MetricsError::Encode),
        }
    }
}

/// Encodes `families` in the text exposition format. An empty list always
/// encodes, to an empty document.
pub fn encode_metrics(families: &Vec<MetricFamily>) -> (r: Result<Vec<u8>, MetricsError>)
    ensures
        outcome_view(r) == encoded_outcome(families@),
        families@.len() == 0 ==> (r matches Ok(b) && b@.len() == 0),
{
    let mut i: usize = 0;
    while i < families.len()
        invariant
            0 <= i <= families@.len(),
            forall|j: int| 0 <= j < i ==> #[trigger] kind_of(families@[j]) != MetricKind::Untyped,
        decreases families@.len() - i,
    {
        if family_kind(&families[i]) == MetricKind::Untyped {
            return Err(MetricsError::Untyped);
        }
        i = i + 1;
    }
    match encode_text(families) {
        Ok(bytes) => Ok(bytes),
        Err(_) => Err(MetricsError::Encode),
    }
}

/// The body of the reply when encoding failed.
pub open spec fn metrics_failure_text() -> Seq<char> {
    "failed to encode metrics"@
}

/// `r` is what `/api/metrics` answers for the encoder's outcome `encoded`.
pub open spec fn is_metrics_reply(r: Reply, encoded: Result<Seq<u8>, MetricsError>) -> bool {
    match encoded {
        Ok(bytes) => {
            &&& r.status == STATUS_OK
            &&& r.content_type matches Some(t) && t@ == text_exposition_type()
            &&& r.body matches Body::Bytes(b) && b@ == bytes
        },
        Err(_) => is_text_reply(r, STATUS_INTERNAL_ERROR, metrics_failure_text()),
    }
}

/// The encoder's outcome with the document as a sequence of bytes.
pub open spec fn outcome_view(encoded: Result<Vec<u8>, MetricsError>) -> Result<Seq<u8>, MetricsError> {
    match encoded {
        Ok(b) => Ok(b@),
        Err(e) => Err(e),
    }
}

/// Turns the encoder's outcome into the reply: the document with its content
/// type, or a 500 when encoding failed.
pub fn metrics_reply(encoded: Result<Vec<u8>, MetricsError>) -> (r: Reply)
    ensures
        is_metrics_reply(r, outcome_view(encoded)),
{
    match encoded {
        Ok(bytes) => Reply {
            status: STATUS_OK,
            content_type: Some(text_format_type()),
            body: Body::Bytes(bytes),
        },
        Err(_) => Reply::text(STATUS_INTERNAL_ERROR, String::from_str("failed to encode metrics")),
    }
}

/// The `/api/metrics` reply for the given families: the encoded document,
/// or a 500 where they cannot be encoded. With no families it is a 200 with
/// an empty document.
pub fn metrics_of(families: &Vec<MetricFamily>) -> (r: Reply)
    ensures
        is_metrics_reply(r, encoded_outcome(families@)),
        families@.len() == 0 ==> is_metrics_reply(r, Ok(Seq::empty())),
{
    let encoded = encode_metrics(families);
    proof {
        if families@.len() == 0 {
            assert(encoded matches Ok(b) && b@ =~= Seq::<u8>::empty());
        }
    }
    metrics_reply(encoded)
}

/// `GET /api/metrics`: the default registry in the text exposition format.
/// The reply is what `metrics_of` gives for the families gathered at the call.
pub fn metrics() -> (r: Reply)
    ensures
        exists|families: Seq<MetricFamily>| is_metrics_reply(r, encoded_outcome(families)),
{
    let families = prometheus::gather();
    metrics_of(&families)
}

} // verus!
