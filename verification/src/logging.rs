//! The choice of log output format.

use vstd::prelude::*;
use vstd::string::StrSliceExecFns;

verus! {

/// How log lines are written.
#[derive(Clone, Copy, PartialEq, Eq, Structural, Debug)]
pub enum LogFormat {
    /// One JSON object per line.
    Json,
    /// Human-readable text.
    Text,
}

/// The requested format name that selects JSON output.
pub open spec fn is_json_request(format: Option<&str>) -> bool {
    format matches Some(f) && f@ == "json"@
}

/// JSON output when `format` is exactly `"json"`; text output for any other
/// name and when none is given.
pub fn log_format(format: Option<&str>) -> (r: LogFormat)
    ensures
        r == LogFormat::Json <==> is_json_request(format),
        r == LogFormat::Text <==> !is_json_request(format),
{
    proof {
        reveal_strlit("json");
    }
    match format {
        Some(f) => {
            if f.unicode_len() == 4 && f.get_char(0) == 'j' && f.get_char(1) == 's'
                && f.get_char(2) == 'o' && f.get_char(3) == 'n' {
                assert(f@ =~= "json"@);
                LogFormat::Json
            } else {
                LogFormat::Text
            }
        },
        None => LogFormat::Text,
    }
}

} // verus!
