//! Names of the monitor's log files.

use vstd::prelude::*;
use vstd::string::StringExecFns;

verus! {

/// Relies on `chrono::Local::now` and its `%Y-%m-%d` formatting: the
/// current local date as `year-month-day`, zero-padded to four, two and
/// two digits.  The value depends on the clock and the machine's time
/// zone, so nothing is assumed beyond the format's minimum length.
#[verifier::external_body]
fn local_date_string() -> (r: String)
    ensures
        r@.len() >= 10,
{
    chrono::Local::now().format("%Y-%m-%d").to_string()
}

/// The log file the monitor uses on a given date: the log directory,
/// the date, the extension.
pub fn log_file_name(date: &str, extension: &str) -> (r: String)
    ensures
        r@ == "logs/"@ + date@ + extension@,
{
    let name = "logs/".to_owned().concat(date).concat(extension);
    proof {
        assert(name@ =~= "logs/"@ + date@ + extension@);
    }
    name
}

/// Today's log file name: the log directory, the local date, then the
/// given extension.  Which date the clock yields is not the library's to
/// say, so only the shape is promised.
pub fn generate_file_name_with_now_time(extension: String) -> (r: String)
    ensures
        exists|date: Seq<char>|
            date.len() >= 10 && r@ == #[trigger] ("logs/"@ + date) + extension@,
{
    let date = local_date_string();
    let name = log_file_name(date.as_str(), extension.as_str());
    proof {
        assert(name@ == ("logs/"@ + date@) + extension@);
    }
    name
}

} // verus!
