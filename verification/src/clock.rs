//! Reading the wall clock for the capture filename.

use vstd::prelude::*;

use crate::filename::{filename_chars, screenshot_filename, LocalTime};

verus! {

/// Relies on `time::OffsetDateTime::now_local` for the current local
/// wall-clock instant, and on its field accessors `year`, `month`, `day`,
/// `hour`, `minute` and `second` to read that instant apart.  The `time`
/// crate keeps years within -9999 through 9999, months within 1 through 12,
/// days within 1 through 31, hours below 24, and minutes and seconds below
/// 60; `now_local` fails when the local UTC offset cannot be determined,
/// which becomes `None`.  Nothing relates two calls: the clock may say
/// anything within those ranges each time.
#[verifier::external_body]
fn now_local_parts() -> (r: Option<LocalTime>)
    ensures
        r matches Some(t) ==> {
            &&& -9999 <= t.year <= 9999
            &&& 1 <= t.month <= 12
            &&& 1 <= t.day <= 31
            &&& t.hour < 24
            &&& t.minute < 60
            &&& t.second < 60
        },
{
    match time::OffsetDateTime::now_local() {
        Ok(t) => Some(
            LocalTime {
                year: t.year(),
                month: t.month() as u8,
                day: t.day(),
                hour: t.hour(),
                minute: t.minute(),
                second: t.second(),
            },
        ),
        Err(_) => None,
    }
}

/// The filename for a capture taken now: the current local time, stamped as
/// `screenshot_YYYYMMDD_HHMMSS.png`.  `None` when the local clock offset
/// cannot be determined, or when the clock reports a year before 1 CE,
/// which the fixed four-digit year field cannot express.
pub fn current_filename() -> (r: Option<String>)
    ensures
        r matches Some(name) ==> exists|t: LocalTime| #[trigger] t.wf() && name@ == filename_chars(
            t,
        ),
{
    match now_local_parts() {
        Some(t) => {
            if t.year >= 0 {
                let name = screenshot_filename(&t);
                proof {
                    assert(t.wf() && name@ == filename_chars(t));
                }
                Some(name)
            } else {
                None
            }
        }
        None => None,
    }
}

} // verus!
