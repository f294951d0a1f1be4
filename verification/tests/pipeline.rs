use mood_log::date::Date;
use mood_log::entry::parse_csv_string;
use mood_log::gap::{get_missing_entry_dates, missing_dates, GapError};
use mood_log::request::{handle_request, is_authorized, RequestError};

const FULL_HEADER: &str = "full_date,date,weekday,time,mood,activities,note_title,note";

fn d(year: u32, month: u32, day: u32) -> Date {
    Date::from_ymd(year, month, day).expect("valid date")
}

fn auth_headers(value: &[u8]) -> Vec<(String, Vec<u8>)> {
    vec![("x-authenticate".to_string(), value.to_vec())]
}

// Entry parser

#[test]
fn parse_header_only_is_empty() {
    let entries = parse_csv_string(&format!("{}\n", FULL_HEADER)).unwrap();
    assert!(entries.is_empty());
}

#[test]
fn parse_header_only_without_newline_is_empty() {
    let entries = parse_csv_string(FULL_HEADER).unwrap();
    assert!(entries.is_empty());
}

#[test]
fn parse_empty_text_is_empty() {
    let entries = parse_csv_string("").unwrap();
    assert!(entries.is_empty());
}

#[test]
fn parse_row_with_reordered_columns_and_whitespace() {
    let text = "note , note_title , activities , mood , time , weekday , date , full_date\n\
                a note ,  title ,  run , happy , 09:00 , Wed , May 1 , 2024-05-01 \n";
    let entries = parse_csv_string(text).unwrap();
    assert_eq!(entries.len(), 1);
    let e = &entries[0];
    assert_eq!(e.full_date, "2024-05-01");
    assert_eq!(e.date, "May 1");
    assert_eq!(e.weekday, "Wed");
    assert_eq!(e.time, "09:00");
    assert_eq!(e.mood, "happy");
    assert_eq!(e.activities, "run");
    assert_eq!(e.note_title, "title");
    assert_eq!(e.note, "a note");
}

#[test]
fn parse_tolerates_crlf_blank_lines_and_extra_fields() {
    let text = format!(
        "{}\r\n\r\n2024-05-02,May 2,Thu,10:00,calm,read,,\r\n2024-05-01,May 1,Wed,09:00,happy,run,,,surplus\r\n",
        FULL_HEADER
    );
    let entries = parse_csv_string(&text).unwrap();
    assert_eq!(entries.len(), 2);
    assert_eq!(entries[0].full_date, "2024-05-02");
    assert_eq!(entries[1].full_date, "2024-05-01");
    assert_eq!(entries[1].note, "");
}

#[test]
fn parse_row_missing_required_column_fails() {
    // The short row supplies no value for the last column, `note`.
    let text = format!("{}\n2024-05-01,May 1,Wed,09:00,happy,run,\n", FULL_HEADER);
    assert!(parse_csv_string(&text).is_err());
}

#[test]
fn parse_header_missing_required_column_fails_on_rows() {
    let text = "full_date,date\n2024-05-01,May 1\n";
    assert!(parse_csv_string(text).is_err());
}

// Date model

#[test]
fn parse_date_forms() {
    assert_eq!(d(2024, 2, 29), mood_log::date::parse_date("2024-02-29").unwrap());
    assert!(mood_log::date::parse_date("2023-02-29").is_none());
    assert!(mood_log::date::parse_date("2024-13-01").is_none());
    assert!(mood_log::date::parse_date("2024-00-10").is_none());
    assert!(mood_log::date::parse_date("2024-5-1").is_none());
    assert!(mood_log::date::parse_date("abcd-01-01").is_none());
    assert!(mood_log::date::parse_date("0000-01-01").is_none());
    assert!(mood_log::date::parse_date("2024/05/01").is_none());
}

#[test]
fn day_number_counts_from_first_supported_date() {
    assert_eq!(d(1, 1, 1).day_number(), 1);
    assert_eq!(d(1, 12, 31).day_number(), 365);
    assert_eq!(d(2, 1, 1).day_number(), 366);
}

#[test]
fn prev_day_steps_over_boundaries() {
    assert_eq!(d(2024, 3, 1).prev_day().unwrap(), d(2024, 2, 29));
    assert_eq!(d(2023, 3, 1).prev_day().unwrap(), d(2023, 2, 28));
    assert_eq!(d(2024, 1, 1).prev_day().unwrap(), d(2023, 12, 31));
    assert!(d(1, 1, 1).prev_day().is_none());
}

// Gap detector

#[test]
fn gap_today_equals_latest_is_empty() {
    let l = d(2024, 5, 1);
    assert_eq!(missing_dates(&l, &l), Vec::<Date>::new());
}

#[test]
fn gap_three_days_lists_three_dates_most_recent_first() {
    let l = d(2024, 5, 1);
    let today = d(2024, 5, 4);
    assert_eq!(
        missing_dates(&l, &today),
        vec![d(2024, 5, 4), d(2024, 5, 3), d(2024, 5, 2)]
    );
}

#[test]
fn gap_crosses_month_boundary() {
    let l = d(2024, 1, 30);
    let today = d(2024, 2, 2);
    assert_eq!(
        missing_dates(&l, &today),
        vec![d(2024, 2, 2), d(2024, 2, 1), d(2024, 1, 31)]
    );
}

#[test]
fn gap_today_before_latest_is_empty() {
    let l = d(2024, 5, 4);
    let today = d(2024, 5, 1);
    assert_eq!(missing_dates(&l, &today), Vec::<Date>::new());
}

#[test]
fn gap_errors_are_distinct() {
    let today = d(2024, 5, 4);
    assert_eq!(
        get_missing_entry_dates(&Vec::new(), &today),
        Err(GapError::NoEntries)
    );
    let text = format!("{}\nnot-a-date,May 1,Wed,09:00,happy,run,,\n", FULL_HEADER);
    let entries = parse_csv_string(&text).unwrap();
    assert_eq!(
        get_missing_entry_dates(&entries, &today),
        Err(GapError::InvalidDate)
    );
}

// Request gate

#[test]
fn gate_rejects_absent_wrong_case_and_empty_values() {
    assert!(!is_authorized(&Vec::new()));
    assert!(!is_authorized(&vec![("other".to_string(), b"daylio".to_vec())]));
    assert!(!is_authorized(&auth_headers(b"DAYLIO")));
    assert!(!is_authorized(&auth_headers(b"")));
    assert!(!is_authorized(&auth_headers(b"wrong")));
    assert!(!is_authorized(&auth_headers(&[0xff, 0xfe])));
    assert!(is_authorized(&auth_headers(b"daylio")));
}

// End-to-end

const SCENARIO_BODY: &str =
    "full_date,date,weekday,time,mood,activities,note_title,note\n2024-05-01,May 1,Wed,09:00,happy,run,,\n";

#[test]
fn handle_caught_up_returns_no_missing_dates() {
    let r = handle_request(
        &auth_headers(b"daylio"),
        SCENARIO_BODY.as_bytes().to_vec(),
        &d(2024, 5, 1),
    );
    assert_eq!(r, Ok(Vec::new()));
}

#[test]
fn handle_gap_returns_missing_dates() {
    let r = handle_request(
        &auth_headers(b"daylio"),
        SCENARIO_BODY.as_bytes().to_vec(),
        &d(2024, 5, 4),
    );
    assert_eq!(r, Ok(vec![d(2024, 5, 4), d(2024, 5, 3), d(2024, 5, 2)]));
}

#[test]
fn handle_wrong_token_is_unauthorized_whatever_the_body() {
    let r = handle_request(
        &auth_headers(b"wrong"),
        SCENARIO_BODY.as_bytes().to_vec(),
        &d(2024, 5, 1),
    );
    assert_eq!(r, Err(RequestError::Unauthorized));
    let r = handle_request(&auth_headers(b"wrong"), vec![0xff, 0x00, 0x01], &d(2024, 5, 1));
    assert_eq!(r, Err(RequestError::Unauthorized));
}

#[test]
fn handle_non_utf8_body_is_encoding_error() {
    let r = handle_request(
        &auth_headers(b"daylio"),
        vec![0xff, 0xfe, 0x00, 0x80],
        &d(2024, 5, 1),
    );
    assert_eq!(r, Err(RequestError::Encoding));
}

#[test]
fn handle_bad_csv_is_csv_error() {
    let body = format!("{}\n2024-05-01,May 1\n", FULL_HEADER);
    let r = handle_request(
        &auth_headers(b"daylio"),
        body.into_bytes(),
        &d(2024, 5, 1),
    );
    assert_eq!(r, Err(RequestError::Csv));
}

#[test]
fn handle_header_only_is_no_entries_error() {
    let body = format!("{}\n", FULL_HEADER);
    let r = handle_request(
        &auth_headers(b"daylio"),
        body.into_bytes(),
        &d(2024, 5, 1),
    );
    assert_eq!(r, Err(RequestError::NoEntries));
}

#[test]
fn handle_bad_latest_date_is_invalid_date_error() {
    let body = format!("{}\n2024-5-1,May 1,Wed,09:00,happy,run,,\n", FULL_HEADER);
    let r = handle_request(
        &auth_headers(b"daylio"),
        body.into_bytes(),
        &d(2024, 5, 1),
    );
    assert_eq!(r, Err(RequestError::InvalidDate));
}
