use vstd::prelude::*;

use crate::reply::{
    is_client_error, is_plain_text_reply, is_text_reply, Body, Reply, STATUS_BAD_REQUEST, STATUS_OK,
};
use crate::snapshot::Snapshot;

verus! {

/// The body of every liveness answer.
pub open spec fn healthy_text() -> Seq<char> {
    "Healthy"@
}

/// `GET /api/health` and `GET /status`: always 200 with `Healthy`. It takes
/// nothing and touches no state, so no earlier request can change it.
pub fn health_check() -> (r: Reply)
    ensures
        is_text_reply(r, STATUS_OK, healthy_text()),
{
    Reply::text(STATUS_OK, String::from_str("Healthy"))
}

/// Liveness answers do not depend on what came before: any two replies that
/// `health_check` may give, whenever it is called, have status 200, the same
/// headers and the same body `Healthy`.
pub proof fn lemma_health_independent_of_history(first: Reply, later: Reply)
    requires
        is_text_reply(first, STATUS_OK, healthy_text()),
        is_text_reply(later, STATUS_OK, healthy_text()),
    ensures
        first.status == STATUS_OK,
        later.status == first.status,
        later.content_type == first.content_type,
        first.body matches Body::Text(a) && later.body matches Body::Text(b) && a@ == b@
            && a@ == healthy_text(),
{
}

/// A configuration form as posted to `/dashboard/save`. A field the request
/// did not carry is `None`.
pub struct ConfigForm {
    pub name: Option<String>,
    pub value: Option<String>,
}

/// The acknowledgement for a saved entry: the submitted strings, verbatim.
pub open spec fn saved_text(name: Seq<char>, value: Seq<char>) -> Seq<char> {
    "Saved "@ + name + ": "@ + value
}

/// The complaint for a form that lacks `field`.
pub open spec fn missing_field_text(field: Seq<char>) -> Seq<char> {
    "missing field `"@ + field + "`"@
}

fn missing_field(field: &str) -> (r: Reply)
    ensures
        is_plain_text_reply(r, STATUS_BAD_REQUEST, missing_field_text(field@)),
{
    let mut text = String::from_str("missing field `");
    text.append(field);
    text.append("`");
    Reply::plain_text(STATUS_BAD_REQUEST, text)
}

/// Checks that a posted form carries both fields. A complete form yields its
/// `(name, value)`; otherwise the client error that names the first missing
/// field.
pub fn validate_form(form: ConfigForm) -> (r: Result<(String, String), Reply>)
    ensures
        match (form.name, form.value) {
            (Some(name), Some(value)) => r matches Ok((n, v)) && n@ == name@ && v@ == value@,
            (None, _) => r matches Err(e)
                && is_plain_text_reply(e, STATUS_BAD_REQUEST, missing_field_text("name"@)),
            (Some(_), None) => r matches Err(e)
                && is_plain_text_reply(e, STATUS_BAD_REQUEST, missing_field_text("value"@)),
        },
{
    match (form.name, form.value) {
        (Some(name), Some(value)) => Ok((name, value)),
        (None, _) => Err(missing_field("name")),
        (Some(_), None) => Err(missing_field("value")),
    }
}

/// Saves a complete entry: refreshes the snapshot exactly once and
/// acknowledges with `Saved <name>: <value>` as plain text.
pub fn save_entry(name: String, value: String, snapshot: &mut Snapshot) -> (r: Reply)
    ensures
        is_plain_text_reply(r, STATUS_OK, saved_text(name@, value@)),
        final(snapshot).refresh_count() == old(snapshot).refresh_count() + 1,
{
    snapshot.refresh();
    let mut text = String::from_str("Saved ");
    text.append(name.as_str());
    text.append(": ");
    text.append(value.as_str());
    Reply::plain_text(STATUS_OK, text)
}

/// `POST /dashboard/save`. With both fields present the snapshot is refreshed
/// exactly once and the reply is `Saved <name>: <value>`; otherwise the reply
/// is a client error naming the first missing field, and the snapshot is left
/// as it was. Every reply is declared plain text, so the echoed strings are
/// never rendered as markup.
pub fn save_config(form: ConfigForm, snapshot: &mut Snapshot) -> (r: Reply)
    ensures
        match (form.name, form.value) {
            (Some(name), Some(value)) => {
                &&& is_plain_text_reply(r, STATUS_OK, saved_text(name@, value@))
                &&& final(snapshot).refresh_count() == old(snapshot).refresh_count() + 1
            },
            (None, _) => {
                &&& is_plain_text_reply(r, STATUS_BAD_REQUEST, missing_field_text("name"@))
                &&& *final(snapshot) == *old(snapshot)
            },
            (Some(_), None) => {
                &&& is_plain_text_reply(r, STATUS_BAD_REQUEST, missing_field_text("value"@))
                &&& *final(snapshot) == *old(snapshot)
            },
        },
        is_client_error(r.status) <==> (form.name is None || form.value is None),
{
    match validate_form(form) {
        Ok((name, value)) => save_entry(name, value, snapshot),
        Err(reply) => reply,
    }
}

/// One entry of the log feed.
pub struct LogRecord {
    pub timestamp: String,
    pub level: String,
    pub message: String,
}

impl View for LogRecord {
    type V = (Seq<char>, Seq<char>, Seq<char>);

    open spec fn view(&self) -> Self::V {
        (self.timestamp@, self.level@, self.message@)
    }
}

/// The fixed feed that `/api/logs` serves, oldest first.
pub open spec fn log_feed() -> Seq<(Seq<char>, Seq<char>, Seq<char>)> {
    seq![
        ("2025-03-08T16:35:00Z"@, "INFO"@, "System initialized"@),
        ("2025-03-08T16:36:00Z"@, "WARN"@, "High memory usage detected"@),
    ]
}

fn log_record(timestamp: &str, level: &str, message: &str) -> (r: LogRecord)
    ensures
        r@ == (timestamp@, level@, message@),
{
    LogRecord {
        timestamp: String::from_str(timestamp),
        level: String::from_str(level),
        message: String::from_str(message),
    }
}

/// `GET /api/logs`: the records of the log feed, in order.
pub fn get_logs() -> (r: Vec<LogRecord>)
    ensures
        r@.len() == log_feed().len(),
        forall|i: int| 0 <= i < r@.len() ==> #[trigger] r@[i]@ == log_feed()[i],
{
    let mut logs: Vec<LogRecord> = Vec::new();
    logs.push(log_record("2025-03-08T16:35:00Z", "INFO", "System initialized"));
    logs.push(log_record("2025-03-08T16:36:00Z", "WARN", "High memory usage detected"));
    logs
}

} // verus!
