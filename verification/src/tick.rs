//! The decision of one polling tick.
//!
//! A tick compares the status extracted from the page against the stored
//! flag. When they agree nothing is posted and nothing is written; when they
//! differ the tick yields exactly one alert payload and the one marker that
//! must overwrite the state file, in that order.

use vstd::prelude::*;
use crate::alert::{alert_payload, build_alert, is_timestamp_text, render_alert};
use crate::extract::{is_maintenance, page_shows_maintenance};
use crate::state::{decode_stored, encode_status, status_marker, stored_status};

verus! {

/// What one polling tick must do.
pub enum TickAction {
    /// The page agrees with the store: post nothing, write nothing.
    Unchanged,
    /// The status flipped: post `payload` to the webhook and, only once that
    /// could be attempted, overwrite the state file with `marker`.
    Notify { payload: String, marker: String },
}

/// Decides one tick from the extracted status, the stored status, and the
/// timestamp an alert would be stamped with. Equal statuses yield
/// `Unchanged`; a flip yields exactly the alert payload announcing the new
/// status and the marker that records it.
pub fn plan_tick(current: bool, stored: bool, timestamp: &str) -> (r: TickAction)
    ensures
        (current == stored) <==> (r is Unchanged),
        current != stored ==> (r matches TickAction::Notify { payload, marker }
            && payload@ == alert_payload(current, timestamp@)
            && marker@ == status_marker(current)),
{
    if current == stored {
        TickAction::Unchanged
    } else {
        TickAction::Notify {
            payload: render_alert(current, timestamp),
            marker: encode_status(current),
        }
    }
}

/// Processes one tick end to end: extracts the page's status, decodes the
/// stored file contents, and on a flip renders the alert payload (stamped
/// with the present UTC time) and the new marker.
pub fn process_tick(html: &str, stored_contents: &Option<String>) -> (r: TickAction)
    ensures
        (page_shows_maintenance(html@) == stored_status(stored_contents.deep_view())) <==> (
        r is Unchanged),
        page_shows_maintenance(html@) != stored_status(stored_contents.deep_view()) ==> (
        r matches TickAction::Notify { payload, marker }
            && marker@ == status_marker(page_shows_maintenance(html@))
            && exists|ts: Seq<char>|
            #[trigger] is_timestamp_text(ts) && payload@ == alert_payload(
                page_shows_maintenance(html@),
                ts,
            )),
{
    let current = is_maintenance(html);
    let stored = decode_stored(stored_contents);
    if current == stored {
        TickAction::Unchanged
    } else {
        TickAction::Notify { payload: build_alert(current), marker: encode_status(current) }
    }
}

} // verus!
