//! Rendering of the webhook alert payload.
//!
//! The payload is a JSON text assembled from fixed fragments, the binary
//! maintenance flag and a timestamp; `alert_payload` states it exactly,
//! and `render_alert` is proved to produce it character for character.

use vstd::prelude::*;
use vstd::string::StringExecFns;
use crate::text::{has_substring, match_at};

verus! {

/// The embed colour, rendered in decimal digits as the payload carries it:
/// red (14495300) for maintenance, green (7909721) for live.
pub open spec fn color_text(maintenance: bool) -> Seq<char> {
    if maintenance {
        "14495300"@
    } else {
        "7909721"@
    }
}

/// The status wording of the alert message.
pub open spec fn status_text(maintenance: bool) -> Seq<char> {
    if maintenance {
        "in maintenance"@
    } else {
        "live"@
    }
}

/// The marker emoji of the alert message.
pub open spec fn status_emoji(maintenance: bool) -> Seq<char> {
    if maintenance {
        ":red_circle:"@
    } else {
        ":green_circle:"@
    }
}

/// The human-readable message of the alert.
pub open spec fn alert_description(maintenance: bool) -> Seq<char> {
    status_emoji(maintenance) + " Alexia server is now "@ + status_text(maintenance) + "!"@
}

/// The complete webhook payload announcing a transition to `maintenance`,
/// stamped with `timestamp`.
pub open spec fn alert_payload(maintenance: bool, timestamp: Seq<char>) -> Seq<char> {
    "{\"embeds\":[{\"title\":\"Server Status Update\",\"description\":\""@
        + alert_description(maintenance)
        + "\",\"color\":"@
        + color_text(maintenance)
        + ",\"footer\":{\"text\":\"Server Status Alert\"},\"timestamp\":\""@
        + timestamp
        + "\"}],\"username\":\"Throne Of Liberty (Alexia) Server Status\",\"avatar_url\":\"https://dl1f6y24yx1ap.cloudfront.net/statics/2024-09-30/images/apple-touch-icon.png\"}"@
}

/// Renders the payload for a transition to `maintenance` with the given
/// timestamp text.
pub fn render_alert(maintenance: bool, timestamp: &str) -> (r: String)
    ensures
        r@ == alert_payload(maintenance, timestamp@),
{
    let mut out = String::from_str(
        "{\"embeds\":[{\"title\":\"Server Status Update\",\"description\":\"",
    );
    if maintenance {
        out.append(":red_circle:");
    } else {
        out.append(":green_circle:");
    }
    out.append(" Alexia server is now ");
    if maintenance {
        out.append("in maintenance");
    } else {
        out.append("live");
    }
    out.append("!");
    out.append("\",\"color\":");
    if maintenance {
        out.append("14495300");
    } else {
        out.append("7909721");
    }
    out.append(",\"footer\":{\"text\":\"Server Status Alert\"},\"timestamp\":\"");
    out.append(timestamp);
    out.append(
        "\"}],\"username\":\"Throne Of Liberty (Alexia) Server Status\",\"avatar_url\":\"https://dl1f6y24yx1ap.cloudfront.net/statics/2024-09-30/images/apple-touch-icon.png\"}",
    );
    proof {
        assert(out@ =~= alert_payload(maintenance, timestamp@));
    }
    out
}

/// Characters that the timestamp layout can produce.
pub open spec fn is_timestamp_char(c: char) -> bool {
    ('0' <= c && c <= '9') || c == '-' || c == '+' || c == 'T' || c == ':' || c == '.' || c == 'Z'
}

/// A non-empty text of timestamp characters.
pub open spec fn is_timestamp_text(ts: Seq<char>) -> bool {
    ts.len() > 0 && (forall|i: int| 0 <= i < ts.len() ==> is_timestamp_char(#[trigger] ts[i]))
}

/// Relies on `chrono::Utc::now` and `DateTime::format` with the fixed layout
/// `%Y-%m-%dT%H:%M:%S%.3fZ` (ISO-8601, millisecond precision, trailing `Z`):
/// the rendered text is never empty and holds only decimal digits and the
/// layout's separators (`-`, `+`, `T`, `:`, `.`, `Z`). What the clock reads
/// is left open.
#[verifier::external_body]
fn utc_now_text() -> (r: String)
    ensures
        is_timestamp_text(r@),
{
    chrono::Utc::now().format("%Y-%m-%dT%H:%M:%S%.3fZ").to_string()
}

/// Renders the payload for a transition to `maintenance`, stamped with the
/// present UTC time.
pub fn build_alert(maintenance: bool) -> (r: String)
    ensures
        exists|ts: Seq<char>|
            #[trigger] is_timestamp_text(ts) && r@ == alert_payload(maintenance, ts),
{
    let ts = utc_now_text();
    render_alert(maintenance, ts.as_str())
}

/// A text occurs in a concatenation right after the part before it.
proof fn lemma_match_middle(a: Seq<char>, b: Seq<char>, c: Seq<char>)
    ensures
        match_at(a + b + c, b, a.len() as int),
{
    assert forall|j: int| 0 <= j < b.len() implies (a + b + c)[a.len() + j] == b[j] by {
        assert((a + b)[a.len() + j] == b[j]);
    }
}

/// Every alert payload carries the status wording of its transition, inside
/// the fixed announcement sentence: red alerts read "in maintenance", green
/// alerts read "live", whatever the timestamp is.
pub proof fn lemma_payload_mentions_status(maintenance: bool, timestamp: Seq<char>)
    ensures
        has_substring(alert_payload(maintenance, timestamp), status_text(maintenance)),
        has_substring(alert_payload(maintenance, timestamp), " Alexia server is now "@),
{
    let head = "{\"embeds\":[{\"title\":\"Server Status Update\",\"description\":\""@;
    let tail = "\",\"color\":"@ + color_text(maintenance)
        + ",\"footer\":{\"text\":\"Server Status Alert\"},\"timestamp\":\""@ + timestamp
        + "\"}],\"username\":\"Throne Of Liberty (Alexia) Server Status\",\"avatar_url\":\"https://dl1f6y24yx1ap.cloudfront.net/statics/2024-09-30/images/apple-touch-icon.png\"}"@;
    let before_text = head + status_emoji(maintenance) + " Alexia server is now "@;
    let after_text = "!"@ + tail;
    assert(alert_payload(maintenance, timestamp) =~= before_text + status_text(maintenance)
        + after_text);
    lemma_match_middle(before_text, status_text(maintenance), after_text);
    let before_sentence = head + status_emoji(maintenance);
    let after_sentence = status_text(maintenance) + "!"@ + tail;
    assert(alert_payload(maintenance, timestamp) =~= before_sentence
        + " Alexia server is now "@ + after_sentence);
    lemma_match_middle(before_sentence, " Alexia server is now "@, after_sentence);
}

} // verus!
