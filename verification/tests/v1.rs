use hamdb::coerce::Date;
use hamdb::error::{classify_request_error, Error};
use hamdb::parsing::CallsignParseError;
use hamdb::v1::{
    build_lookup, complete_lookup, make_url, prepare_lookup, status_from_text, RawCallsign,
    RawEnvelope, ResponseStatus,
};

fn sample_raw() -> RawCallsign {
    RawCallsign {
        call: "W1AW".to_string(),
        class: "C".to_string(),
        expires: "06/08/2028".to_string(),
        status: "A".to_string(),
        grid: "FN31pr".to_string(),
        lat: "41.7148".trim().parse::<f64>().ok().map(f64::to_bits),
        lon: "-72.7272".trim().parse::<f64>().ok().map(f64::to_bits),
        fname: "ARRL".to_string(),
        mi: "".to_string(),
        name: "ARRL HQ".to_string(),
        suffix: "".to_string(),
        addr1: "225 Main St".to_string(),
        addr2: "".to_string(),
        state: "CT".to_string(),
        zip: "06111".to_string(),
        country: "United States".to_string(),
    }
}

#[test]
fn url_concatenates_endpoint_base_and_app() {
    assert_eq!(
        make_url("W1AW", "myapp"),
        "https://api.hamdb.org/v1/W1AW/json/myapp"
    );
}

#[test]
fn status_text_maps_to_indicator() {
    assert_eq!(status_from_text("OK"), ResponseStatus::Found);
    assert_eq!(status_from_text("NOT_FOUND"), ResponseStatus::NotFound);
    assert_eq!(status_from_text("SOMETHING_ELSE"), ResponseStatus::Unrecognized);
    assert_eq!(status_from_text(""), ResponseStatus::Unrecognized);
    assert_eq!(status_from_text("ok"), ResponseStatus::Unrecognized);
}

#[test]
fn prepare_builds_url_from_normalized_base() {
    let (parsed, url) = prepare_lookup("w1aw/ae", "myapp").unwrap();
    assert_eq!(parsed.base, "W1AW");
    assert_eq!(parsed.suffix.as_deref(), Some("AE"));
    assert_eq!(url, "https://api.hamdb.org/v1/W1AW/json/myapp");
}

#[test]
fn prepare_propagates_parse_errors() {
    assert_eq!(
        prepare_lookup("ab", "myapp"),
        Err(CallsignParseError::InvalidLength { input: "ab".to_string(), len: 2 })
    );
}

#[test]
fn not_found_discards_payload() {
    let env = RawEnvelope { status: "NOT_FOUND".to_string(), callsign: sample_raw() };
    assert_eq!(
        complete_lookup(env, "W9ZZZ9".to_string()),
        Err(Error::NotFound("W9ZZZ9".to_string()))
    );
}

#[test]
fn ok_envelope_coerces_field_by_field() {
    let env = RawEnvelope { status: "OK".to_string(), callsign: sample_raw() };
    let record = complete_lookup(env, "W1AW".to_string()).unwrap();
    assert_eq!(record.call, "W1AW");
    assert_eq!(record.class, "C");
    assert_eq!(record.expires, Some(Date { year: 2028, month: 6, day: 8 }));
    assert_eq!(record.status, Some("A".to_string()));
    assert_eq!(record.grid, "FN31pr");
    assert_eq!(record.lat, Some((41.7148f64).to_bits()));
    assert_eq!(record.lon, Some((-72.7272f64).to_bits()));
    assert_eq!(record.first_name, Some("ARRL".to_string()));
    assert_eq!(record.middle_initial, None);
    assert_eq!(record.name, "ARRL HQ");
    assert_eq!(record.suffix, None);
    assert_eq!(record.addr1, Some("225 Main St".to_string()));
    assert_eq!(record.addr2, None);
    assert_eq!(record.state, Some("CT".to_string()));
    assert_eq!(record.zip, Some("06111".to_string()));
    assert_eq!(record.country, "United States");
}

#[test]
fn unrecognized_status_still_yields_record() {
    let env = RawEnvelope { status: "DEGRADED".to_string(), callsign: sample_raw() };
    let record = complete_lookup(env, "W1AW".to_string()).unwrap();
    assert_eq!(record.call, "W1AW");
}

#[test]
fn build_lookup_absorbs_bad_optional_fields() {
    let mut raw = sample_raw();
    raw.expires = "junk".to_string();
    raw.lat = "145.0".trim().parse::<f64>().ok().map(f64::to_bits);
    raw.lon = "not-a-number".trim().parse::<f64>().ok().map(f64::to_bits);
    raw.status = "".to_string();
    let record = build_lookup(raw);
    assert_eq!(record.expires, None);
    assert_eq!(record.lat, None);
    assert_eq!(record.lon, None);
    assert_eq!(record.status, None);
}

#[test]
fn transport_failures_classify_by_flags() {
    assert_eq!(classify_request_error(true, false), Error::Timeout);
    assert_eq!(classify_request_error(true, true), Error::Timeout);
    assert_eq!(classify_request_error(false, true), Error::BodyParsing);
    assert_eq!(classify_request_error(false, false), Error::Http);
}
