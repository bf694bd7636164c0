//! The answer to a backup that a caller asked for.

use crate::backup::{outcome_view, result_of, PipelineResult, PipelineResultView};
use crate::error::BackupError;
use crate::json::{bool_value, json_view, object2, object_of2, string_value, Json};
use crate::upload::UploadReceipt;
use vstd::prelude::*;

verus! {

/// The body that answers a manual backup: `success` and `message` after a
/// success, `success` and `error` after a failure.
pub open spec fn reply_body(result: PipelineResultView) -> Json {
    if result.success {
        object2("success"@, Json::Bool(true), "message"@, Json::String(result.message))
    } else {
        object2("success"@, Json::Bool(false), "error"@, Json::String(result.message))
    }
}

/// The status that answers a manual backup, whatever became of it.
pub open spec fn reply_status() -> u16 {
    200
}

/// Builds the body that answers a manual backup from the run's report.
pub fn reply(result: &PipelineResult) -> (body: serde_json::Value)
    ensures
        json_view(body) == reply_body(result@),
{
    proof {
        reveal_strlit("success");
        reveal_strlit("message");
        reveal_strlit("error");
        assert("success"@[0] != "message"@[0]);
        assert("success"@.len() != "error"@.len());
    }
    let text: serde_json::Value = string_value(result.message.as_str());
    if result.success {
        object_of2("success", bool_value(true), "message", text)
    } else {
        object_of2("success", bool_value(false), "error", text)
    }
}

/// Answers the caller who asked for a backup, once the run is over. The
/// answer always has status 200: a failed backup is told in the body, not as
/// a fault of the request.
pub fn manual_backup(outcome: &Result<UploadReceipt, BackupError>) -> (response: (
    u16,
    serde_json::Value,
))
    ensures
        response.0 == reply_status(),
        json_view(response.1) == reply_body(result_of(outcome_view(*outcome))),
{
    let result: PipelineResult = PipelineResult::from_outcome(outcome);
    (200, reply(&result))
}

} // verus!
