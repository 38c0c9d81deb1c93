//! The access logger: one structured line per completed request, derived
//! read-only from request and response metadata.

use vstd::prelude::*;
use vstd::string::StringExecFns;
use crate::num::{u16_digits, u16_to_string};

verus! {

/// What one completed request leaves behind for the log: request and
/// response metadata plus the already-rendered timestamp and elapsed time,
/// which only the transport layer can measure.
pub struct AccessLogRecord {
    pub remote_ip: String,
    pub timestamp: String,
    pub method: String,
    pub path: String,
    pub version: String,
    pub status: u16,
    pub referer: Option<String>,
    pub user_agent: Option<String>,
    pub host: Option<String>,
    pub elapsed: String,
}

/// An optional field renders as itself, or as `-` when absent.
pub open spec fn opt_field_spec(o: Option<String>) -> Seq<char> {
    match o {
        Some(s) => s@,
        None => "-"@,
    }
}

/// The one log line for a completed request: remote IP, the literal `- -`,
/// timestamp, the quoted request line, the status, the quoted referer, user
/// agent and host (or `-`), and the elapsed time.
pub open spec fn log_line_spec(r: AccessLogRecord) -> Seq<char> {
    r.remote_ip@ + " - - "@ + r.timestamp@ + " \""@ + r.method@ + " "@ + r.path@ + " "@
        + r.version@ + "\" "@ + u16_digits(r.status as nat) + " \""@ + opt_field_spec(r.referer)
        + "\" \""@ + opt_field_spec(r.user_agent) + "\" \""@ + opt_field_spec(r.host) + "\" "@
        + r.elapsed@
}

/// Append an optional field, or `-` when it is absent.
fn append_opt_field(line: &mut String, o: &Option<String>)
    ensures
        final (line)@ == old(line)@ + opt_field_spec(*o),
{
    match o {
        Some(s) => line.append(s.as_str()),
        None => line.append("-"),
    }
}

/// Render the access-log line for one completed request. The logger only
/// observes: it never alters what the handler decided.
pub fn format_log_line(r: &AccessLogRecord) -> (line: String)
    ensures
        line@ == log_line_spec(*r),
{
    let mut line = String::new();
    line.append(r.remote_ip.as_str());
    line.append(" - - ");
    line.append(r.timestamp.as_str());
    line.append(" \"");
    line.append(r.method.as_str());
    line.append(" ");
    line.append(r.path.as_str());
    line.append(" ");
    line.append(r.version.as_str());
    line.append("\" ");
    let status = u16_to_string(r.status);
    line.append(status.as_str());
    line.append(" \"");
    append_opt_field(&mut line, &r.referer);
    line.append("\" \"");
    append_opt_field(&mut line, &r.user_agent);
    line.append("\" \"");
    append_opt_field(&mut line, &r.host);
    line.append("\" ");
    line.append(r.elapsed.as_str());
    proof {
        assert(line@ =~= log_line_spec(*r));
    }
    line
}

} // verus!
