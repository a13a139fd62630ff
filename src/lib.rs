//! Reading the observatory's operational logs: exposure annotations and
//! narrative shift-log entries from flat JSON arrays, and alarms and scheduler
//! block statuses from time-series query answers, with the fields derived from
//! them for display (index labels, attached images, label text).

pub mod text;
pub mod json;
pub mod error;
pub mod series;
pub mod fault_log;
pub mod block_log;
pub mod exposure_log;
pub mod narrative_log;
pub mod timestamp;
pub mod query;
pub mod night_plan;
