//! Decision and classification logic of the report pipeline.
//!
//! One report attempt goes in three steps: [`decide_collection`] says
//! whether an outbound call is warranted at all; the surrounding program
//! performs at most one HTTP call; [`classify_collection_response`] turns
//! whatever came back into the final outcome.  When the decision is to
//! skip, no call is made, so a disabled collector causes zero network
//! traffic.

use vstd::prelude::*;
use vstd::string::StringExecFns;

use crate::threshold::ThresholdTracker;

verus! {

/// HTTP status accepted as a successful report.
pub const HTTP_OK: u16 = 200;

/// The other HTTP status accepted as a successful report.
pub const HTTP_CREATED: u16 = 201;

/// Why a report attempt produced no successful delivery.
///
/// The first two are short-circuits, not faults: collection is switched
/// off, or the reading carries no new information.  The last two classify
/// a failed call: the endpoint answered with a non-success status, or the
/// transport itself failed.
#[derive(Debug, PartialEq, Eq)]
pub enum DataCollectionError {
    /// The collection-enabled flag is off; no call was attempted.
    DataCollectionDisabled,
    /// The reading did not change since the last poll; no call was attempted.
    ValueHasNotChanged,
    /// The endpoint rejected the report with this HTTP status.
    DataCollectionError(u16),
    /// The call never completed; the transport's own description.
    SystemError(String),
}

/// The digit character for one decimal digit.
pub open spec fn spec_digit(d: nat) -> char {
    if d == 0 {
        '0'
    } else if d == 1 {
        '1'
    } else if d == 2 {
        '2'
    } else if d == 3 {
        '3'
    } else if d == 4 {
        '4'
    } else if d == 5 {
        '5'
    } else if d == 6 {
        '6'
    } else if d == 7 {
        '7'
    } else if d == 8 {
        '8'
    } else {
        '9'
    }
}

/// The decimal digit string of `n`, most significant digit first, with
/// no leading zeros (a single zero for `n == 0`).
pub open spec fn spec_decimal(n: nat) -> Seq<char>
    decreases n,
{
    if n < 10 {
        seq![spec_digit(n)]
    } else {
        spec_decimal(n / 10) + seq![spec_digit(n % 10)]
    }
}

/// The one-character string for a single decimal digit.
fn digit_str(d: u16) -> (r: &'static str)
    requires
        d < 10,
    ensures
        r@ =~= seq![spec_digit(d as nat)],
{
    proof {
        reveal_strlit("0");
        reveal_strlit("1");
        reveal_strlit("2");
        reveal_strlit("3");
        reveal_strlit("4");
        reveal_strlit("5");
        reveal_strlit("6");
        reveal_strlit("7");
        reveal_strlit("8");
        reveal_strlit("9");
    }
    match d {
        0 => "0",
        1 => "1",
        2 => "2",
        3 => "3",
        4 => "4",
        5 => "5",
        6 => "6",
        7 => "7",
        8 => "8",
        _ => "9",
    }
}

/// Render `n` in decimal.
pub fn format_u16(n: u16) -> (r: String)
    ensures
        r@ == spec_decimal(n as nat),
    decreases n,
{
    if n < 10 {
        digit_str(n).to_owned()
    } else {
        let prefix = format_u16(n / 10);
        prefix.concat(digit_str(n % 10))
    }
}

impl DataCollectionError {
    /// The human-readable description of each outcome.
    pub open spec fn spec_message(self) -> Seq<char> {
        match self {
            DataCollectionError::DataCollectionDisabled => "Data collection is disabled"@,
            DataCollectionError::ValueHasNotChanged => "Value has not changed"@,
            DataCollectionError::DataCollectionError(code) => "Data collection error: "@
                + spec_decimal(code as nat),
            DataCollectionError::SystemError(m) => "System error: "@ + m@,
        }
    }

    /// Exec mirror of [`DataCollectionError::spec_message`].
    pub fn message(&self) -> (r: String)
        ensures
            r@ == self.spec_message(),
    {
        match self {
            DataCollectionError::DataCollectionDisabled => "Data collection is disabled".to_owned(),
            DataCollectionError::ValueHasNotChanged => "Value has not changed".to_owned(),
            DataCollectionError::DataCollectionError(code) => "Data collection error: ".to_owned()
                .concat(format_u16(*code).as_str()),
            DataCollectionError::SystemError(m) => "System error: ".to_owned().concat(m.as_str()),
        }
    }
}

/// What the control loop should do with the current reading: skip with
/// the given short-circuit outcome, or send one report carrying the
/// reading (millidegrees Celsius).
#[derive(Debug, PartialEq, Eq)]
pub enum CollectionDecision {
    /// Make no call; this is the outcome of the attempt.
    Skip(DataCollectionError),
    /// Make exactly one call carrying this reading.
    Send(i32),
}

/// The report policy.  A disabled collector skips with
/// [`DataCollectionError::DataCollectionDisabled`] before anything else
/// is looked at; an unchanged reading skips with
/// [`DataCollectionError::ValueHasNotChanged`]; otherwise the current
/// reading is sent.
pub fn decide_collection(collection_enabled: bool, tracker: &ThresholdTracker) -> (d:
    CollectionDecision)
    ensures
        !collection_enabled ==> d == CollectionDecision::Skip(
            DataCollectionError::DataCollectionDisabled,
        ),
        collection_enabled && tracker.current == tracker.previous ==> d
            == CollectionDecision::Skip(DataCollectionError::ValueHasNotChanged),
        collection_enabled && tracker.current != tracker.previous ==> d
            == CollectionDecision::Send(tracker.current),
{
    if !collection_enabled {
        CollectionDecision::Skip(DataCollectionError::DataCollectionDisabled)
    } else if tracker.should_collect_data() {
        CollectionDecision::Send(tracker.current)
    } else {
        CollectionDecision::Skip(DataCollectionError::ValueHasNotChanged)
    }
}

/// Classify what one outbound call produced: `Ok` with the status code
/// for 200 and 201, the endpoint's status as
/// [`DataCollectionError::DataCollectionError`] for every other status,
/// and the transport's message as [`DataCollectionError::SystemError`]
/// when the call itself failed.
pub fn classify_collection_response(response: Result<u16, String>) -> (out: Result<
    u16,
    DataCollectionError,
>)
    ensures
        response matches Ok(code) ==> (if code == HTTP_OK || code == HTTP_CREATED {
            out == Ok::<u16, DataCollectionError>(code)
        } else {
            out == Err::<u16, DataCollectionError>(DataCollectionError::DataCollectionError(code))
        }),
        response matches Err(m) ==> out == Err::<u16, DataCollectionError>(
            DataCollectionError::SystemError(m),
        ),
{
    match response {
        Ok(code) => {
            if code == HTTP_OK || code == HTTP_CREATED {
                Ok(code)
            } else {
                Err(DataCollectionError::DataCollectionError(code))
            }
        },
        Err(m) => Err(DataCollectionError::SystemError(m)),
    }
}

} // verus!
