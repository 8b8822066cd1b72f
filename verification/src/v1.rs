//! Decision logic of the lookup client.
//!
//! A lookup runs in three steps.  [`prepare_lookup`] validates the raw
//! callsign and builds the request URL.  The caller performs the HTTP
//! round trip and hands every textual field of the decoded response body
//! back as a [`RawEnvelope`].  [`complete_lookup`] then applies the field
//! coercion rules and the status check and produces the typed record or a
//! not-found error.  Everything here is pure; the transport lives outside
//! the library.

use vstd::prelude::*;

use crate::coerce::{
    blank_as_absent, bounded_spec, coerce_latitude, coerce_longitude, coord_le, empty_as_none,
    mdy_spec, string_as_mdy, Date, LAT_MAX_BITS, LAT_MIN_BITS, LON_MAX_BITS, LON_MIN_BITS,
};
use crate::error::Error;
use crate::parsing::{
    parse_callsign, parse_spec, CallsignParseError, ParsedCallsign, ParseErrorView, ParsedView,
};
use crate::text::str_eq;
use vstd::string::StringExecFns;

verus! {

/// Successful callsign lookup payload.
///
/// The mandatory identifying fields are plain strings; every other field is
/// absent when the upstream representation was blank, malformed or out of
/// bounds.  Coordinates are held as the bit patterns of IEEE 754 doubles.
#[derive(Debug, Clone, PartialEq)]
pub struct CallsignLookup {
    /// Callsign exactly as the service records it.
    pub call: String,
    /// License class.
    pub class: String,
    /// License expiration date.
    pub expires: Option<Date>,
    /// License status description.
    pub status: Option<String>,
    /// Maidenhead grid square.
    pub grid: String,
    /// Approximate latitude of the station address, as the bit pattern of a
    /// double in `[-90, 90]`.
    pub lat: Option<u64>,
    /// Approximate longitude of the station address, as the bit pattern of
    /// a double in `[-180, 180]`.
    pub lon: Option<u64>,
    /// First name of the licensee.
    pub first_name: Option<String>,
    /// Middle initial of the licensee.
    pub middle_initial: Option<String>,
    /// Legal name of the licensee.
    pub name: String,
    /// Name suffix (Jr, Sr, and the like).
    pub suffix: Option<String>,
    /// Primary street address line.
    pub addr1: Option<String>,
    /// Secondary street address line.
    pub addr2: Option<String>,
    /// State or region abbreviation.
    pub state: Option<String>,
    /// Postal code.
    pub zip: Option<String>,
    /// Country recorded by the service.
    pub country: String,
}

/// The textual fields of one decoded response body, before coercion.
///
/// `lat` and `lon` carry the outcome of the numeric parse of the raw
/// coordinate text: the bit pattern of the parsed double, or absent when
/// the text was blank or not a number.
pub struct RawCallsign {
    pub call: String,
    pub class: String,
    pub expires: String,
    pub status: String,
    pub grid: String,
    pub lat: Option<u64>,
    pub lon: Option<u64>,
    pub fname: String,
    pub mi: String,
    pub name: String,
    pub suffix: String,
    pub addr1: String,
    pub addr2: String,
    pub state: String,
    pub zip: String,
    pub country: String,
}

/// One decoded response body: the status indicator text and the embedded
/// callsign record.
pub struct RawEnvelope {
    pub status: String,
    pub callsign: RawCallsign,
}

/// Status indicator of a response envelope.  The set is open-ended: a value
/// other than the two known ones must not fail the decode, so it maps to
/// `Unrecognized`.
#[derive(Debug, Clone, Copy, PartialEq, Eq, Structural)]
pub enum ResponseStatus {
    Found,
    NotFound,
    Unrecognized,
}

/// The status a given indicator text denotes.
pub open spec fn status_of_text(s: Seq<char>) -> ResponseStatus {
    if s == "OK"@ {
        ResponseStatus::Found
    } else if s == "NOT_FOUND"@ {
        ResponseStatus::NotFound
    } else {
        ResponseStatus::Unrecognized
    }
}

/// Maps the status text of an envelope to its indicator.
pub fn status_from_text(s: &str) -> (r: ResponseStatus)
    ensures
        r == status_of_text(s@),
{
    if str_eq(s, "OK") {
        ResponseStatus::Found
    } else if str_eq(s, "NOT_FOUND") {
        ResponseStatus::NotFound
    } else {
        ResponseStatus::Unrecognized
    }
}

/// Builds the request URL: the fixed endpoint, the validated base callsign,
/// the fixed path segment and the application identifier, concatenated.
pub fn make_url(callsign: &str, app_name: &str) -> (r: String)
    ensures
        r@ == "https://api.hamdb.org/v1/"@ + callsign@ + "/json/"@ + app_name@,
{
    let mut url = "https://api.hamdb.org/v1/".to_owned();
    url.append(callsign);
    url.append("/json/");
    url.append(app_name);
    proof {
        assert(url@ =~= "https://api.hamdb.org/v1/"@ + callsign@ + "/json/"@ + app_name@);
    }
    url
}

/// Validates a raw callsign and builds the request URL for it.
///
/// Returns the parsed callsign together with the URL, or the parse error,
/// exactly as [`parse_spec`] decides.
pub fn prepare_lookup(callsign: &str, app_name: &str) -> (r: Result<
    (ParsedCallsign, String),
    CallsignParseError,
>)
    ensures
        r matches Ok((p, url)) ==> {
            &&& parse_spec(callsign@) == Ok::<ParsedView, ParseErrorView>(p@)
            &&& url@ == "https://api.hamdb.org/v1/"@ + p.base@ + "/json/"@ + app_name@
        },
        r matches Err(e) ==> parse_spec(callsign@) == Err::<ParsedView, ParseErrorView>(e@),
{
    match parse_callsign(callsign) {
        Ok(p) => {
            let url = make_url(p.base.as_str(), app_name);
            Ok((p, url))
        },
        Err(e) => Err(e),
    }
}

/// Every field of `c` is the stated coercion of the corresponding raw
/// field: the mandatory strings verbatim, dates by the `MM/DD/YYYY` rule,
/// coordinates kept only inside their interval, and blank optional strings
/// absent.
pub open spec fn lookup_matches(c: CallsignLookup, raw: RawCallsign) -> bool {
    &&& c.call@ == raw.call@
    &&& c.class@ == raw.class@
    &&& c.grid@ == raw.grid@
    &&& c.name@ == raw.name@
    &&& c.country@ == raw.country@
    &&& c.expires == mdy_spec(raw.expires@)
    &&& c.status.deep_view() == blank_as_absent(raw.status@)
    &&& c.lat == bounded_spec(raw.lat, LAT_MIN_BITS, LAT_MAX_BITS)
    &&& c.lon == bounded_spec(raw.lon, LON_MIN_BITS, LON_MAX_BITS)
    &&& c.first_name.deep_view() == blank_as_absent(raw.fname@)
    &&& c.middle_initial.deep_view() == blank_as_absent(raw.mi@)
    &&& c.suffix.deep_view() == blank_as_absent(raw.suffix@)
    &&& c.addr1.deep_view() == blank_as_absent(raw.addr1@)
    &&& c.addr2.deep_view() == blank_as_absent(raw.addr2@)
    &&& c.state.deep_view() == blank_as_absent(raw.state@)
    &&& c.zip.deep_view() == blank_as_absent(raw.zip@)
}

/// Invariant of every coerced record: a present latitude lies in
/// `[-90, 90]` and a present longitude in `[-180, 180]`, independently
/// validated, and a present optional string is never empty.
pub proof fn lemma_lookup_well_formed(c: CallsignLookup, raw: RawCallsign)
    requires
        lookup_matches(c, raw),
    ensures
        c.lat matches Some(b) ==> coord_le(LAT_MIN_BITS, b) && coord_le(b, LAT_MAX_BITS),
        c.lon matches Some(b) ==> coord_le(LON_MIN_BITS, b) && coord_le(b, LON_MAX_BITS),
        c.status matches Some(s) ==> s@.len() > 0,
        c.first_name matches Some(s) ==> s@.len() > 0,
        c.middle_initial matches Some(s) ==> s@.len() > 0,
        c.suffix matches Some(s) ==> s@.len() > 0,
        c.addr1 matches Some(s) ==> s@.len() > 0,
        c.addr2 matches Some(s) ==> s@.len() > 0,
        c.state matches Some(s) ==> s@.len() > 0,
        c.zip matches Some(s) ==> s@.len() > 0,
{
}

/// Applies the field coercion rules to one raw record, field by field.
pub fn build_lookup(raw: RawCallsign) -> (c: CallsignLookup)
    ensures
        lookup_matches(c, raw),
{
    let expires = string_as_mdy(raw.expires.as_str());
    CallsignLookup {
        call: raw.call,
        class: raw.class,
        expires,
        status: empty_as_none(raw.status),
        grid: raw.grid,
        lat: coerce_latitude(raw.lat),
        lon: coerce_longitude(raw.lon),
        first_name: empty_as_none(raw.fname),
        middle_initial: empty_as_none(raw.mi),
        name: raw.name,
        suffix: empty_as_none(raw.suffix),
        addr1: empty_as_none(raw.addr1),
        addr2: empty_as_none(raw.addr2),
        state: empty_as_none(raw.state),
        zip: empty_as_none(raw.zip),
        country: raw.country,
    }
}

/// Interprets one decoded response envelope for the given validated base
/// callsign.
///
/// A not-found status discards the embedded record, whatever it holds, and
/// reports the base callsign as missing; any other status, a recognized one
/// or not, yields the coerced record.
pub fn complete_lookup(env: RawEnvelope, base: String) -> (r: Result<CallsignLookup, Error>)
    ensures
        status_of_text(env.status@) is NotFound ==> (r matches Err(Error::NotFound(b)) && b@
            == base@),
        !(status_of_text(env.status@) is NotFound) ==> (r matches Ok(c) && lookup_matches(
            c,
            env.callsign,
        )),
{
    match status_from_text(env.status.as_str()) {
        ResponseStatus::NotFound => Err(Error::NotFound(base)),
        _ => Ok(build_lookup(env.callsign)),
    }
}

} // verus!
