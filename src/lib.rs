//! A small always-on observability agent: health, metrics, a configuration
//! form and a log feed, served on a data-plane port and a control-plane port.
//!
//! The library holds what each endpoint decides and answers. The HTTP
//! listeners, the lock around the shared host snapshot and the process
//! lifecycle sit around it.

mod config;
mod dashboard;
mod endpoints;
mod metrics;
mod reply;
mod snapshot;

pub use config::{ServiceConfig, DEFAULT_API_PORT, DEFAULT_ORCHESTRATOR_PORT};
pub use dashboard::{dashboard, DASHBOARD_HTML};
pub use endpoints::{
    get_logs, health_check, lemma_health_independent_of_history, save_config, save_entry, validate_form,
    ConfigForm, LogRecord,
};
pub use metrics::{encode_metrics, metrics, metrics_of, metrics_reply, MetricKind, MetricsError};
pub use reply::{Body, Reply, STATUS_BAD_REQUEST, STATUS_INTERNAL_ERROR, STATUS_OK};
pub use snapshot::Snapshot;
