//! The request gate and the ingestion handler.
//!
//! A request carries headers and a body of bytes. Authorization runs
//! first: the secret header is held against the expected token. The
//! handler then decodes the body as UTF-8 text, parses it as CSV and
//! reports the missing entry dates, mapping every failure to its own
//! error.

use vstd::prelude::*;

use crate::date::{spec_parse_date, Date};
use crate::entry::{parse_csv_string, spec_parse_csv, MoodEntry};
use crate::gap::{get_missing_entry_dates, is_missing_dates, GapError};
use vstd::utf8::{decode_utf8, valid_utf8};

verus! {

/// The name of the shared-secret header.
pub open spec fn auth_header_name() -> Seq<char> {
    "x-authenticate"@
}

/// The bytes of the expected shared-secret token (the ASCII text
/// `daylio`).
pub open spec fn expected_token() -> Seq<u8> {
    seq![0x64u8, 0x61u8, 0x79u8, 0x6cu8, 0x69u8, 0x6fu8]
}

/// The value of the first header called `name`, or `None` when no such
/// header is present.
pub open spec fn header_value(headers: Seq<(Seq<char>, Seq<u8>)>, name: Seq<char>) -> Option<
    Seq<u8>,
>
    decreases headers.len(),
{
    if headers.len() == 0 {
        None
    } else if headers[0].0 == name {
        Some(headers[0].1)
    } else {
        header_value(headers.drop_first(), name)
    }
}

/// A request is authorized exactly when it carries the shared-secret
/// header with precisely the expected token bytes: an absent header, a
/// value differing in any byte (case included) and an empty value are all
/// alike unauthorized.
pub open spec fn spec_authorized(headers: Seq<(Seq<char>, Seq<u8>)>) -> bool {
    header_value(headers, auth_header_name()) == Some(expected_token())
}

fn token_matches(value: &Vec<u8>) -> (r: bool)
    ensures
        r == (value@ == expected_token()),
{
    let r = value.len() == 6 && value[0] == 0x64 && value[1] == 0x61 && value[2] == 0x79
        && value[3] == 0x6c && value[4] == 0x69 && value[5] == 0x6f;
    proof {
        if r {
            assert(value@ =~= expected_token());
        }
        if value@ == expected_token() {
            assert(value@.len() == 6);
            assert(value@[0] == 0x64u8 && value@[1] == 0x61u8 && value@[2] == 0x79u8 && value@[3]
                == 0x6cu8 && value@[4] == 0x69u8 && value@[5] == 0x6fu8);
        }
    }
    r
}

/// The request gate: decide whether `headers` authorize the request.
pub fn is_authorized(headers: &Vec<(String, Vec<u8>)>) -> (r: bool)
    ensures
        r == spec_authorized(headers.deep_view()),
{
    let name = String::from_str("x-authenticate");
    let mut i: usize = 0;
    proof {
        assert(headers.deep_view().skip(0) =~= headers.deep_view());
    }
    while i < headers.len()
        invariant
            0 <= i <= headers.len(),
            name@ == auth_header_name(),
            header_value(headers.deep_view(), auth_header_name()) == header_value(
                headers.deep_view().skip(i as int),
                auth_header_name(),
            ),
        decreases headers.len() - i,
    {
        proof {
            assert(headers.deep_view().skip(i as int)[0] == headers.deep_view()[i as int]);
            assert(headers.deep_view().skip(i as int).drop_first() =~= headers.deep_view().skip(
                i + 1,
            ));
        }
        let pair = &headers[i];
        proof {
            assert(pair.1.deep_view() =~= pair.1@);
        }
        if pair.0.eq(&name) {
            return token_matches(&pair.1);
        }
        i = i + 1;
    }
    proof {
        assert(headers.deep_view().skip(headers.deep_view().len() as int).len() == 0);
    }
    false
}

/// Everything that can end a request without a missing-dates answer,
/// one variant per failure of the taxonomy.
#[derive(Debug, Clone, Copy, PartialEq, Eq, Structural)]
pub enum RequestError {
    /// The shared-secret header is absent or its value is not the token.
    Unauthorized,
    /// The body is not valid UTF-8 text.
    Encoding,
    /// The body is not decodable CSV: a data row misses a schema column.
    Csv,
    /// The CSV holds no data rows, so there is no latest entry.
    NoEntries,
    /// The first entry's date string names no valid date.
    InvalidDate,
}

/// What the handler must return for a request, over the decoded text.
pub open spec fn handled_text(text: Seq<char>, today: Date, r: Result<
    Vec<Date>,
    RequestError,
>) -> bool {
    match spec_parse_csv(text) {
        None => r == Result::<Vec<Date>, RequestError>::Err(RequestError::Csv),
        Some(entries) => if entries.len() == 0 {
            r == Result::<Vec<Date>, RequestError>::Err(RequestError::NoEntries)
        } else {
            match spec_parse_date(entries[0].full_date) {
                None => r == Result::<Vec<Date>, RequestError>::Err(RequestError::InvalidDate),
                Some(latest) => (r matches Result::Ok(v) && is_missing_dates(v@, latest, today)),
            }
        },
    }
}

/// What the handler must return for a request, over the raw bytes.
pub open spec fn handled(
    headers: Seq<(Seq<char>, Seq<u8>)>,
    body: Seq<u8>,
    today: Date,
    r: Result<Vec<Date>, RequestError>,
) -> bool {
    if !spec_authorized(headers) {
        r == Result::<Vec<Date>, RequestError>::Err(RequestError::Unauthorized)
    } else if !valid_utf8(body) {
        r == Result::<Vec<Date>, RequestError>::Err(RequestError::Encoding)
    } else {
        handled_text(decode_utf8(body), today, r)
    }
}

/// Relies on `String::from_utf8`: it succeeds exactly on valid UTF-8
/// input, and the returned string holds the decoding of those bytes.
#[verifier::external_body]
fn decode_body(body: Vec<u8>) -> (r: Option<String>)
    ensures
        r is Some <==> valid_utf8(body@),
        r is Some ==> r->0@ == decode_utf8(body@),
{
    match String::from_utf8(body) {
        Ok(text) => Some(text),
        Err(_) => None,
    }
}

/// Handle one ingestion request: gate, decode, parse, detect gaps.
///
/// Every outcome is request-local: each failure of the taxonomy is
/// reported as its own error, and nothing runs past the first failing
/// stage — an unauthorized request's body is never even decoded.
pub fn handle_request(headers: &Vec<(String, Vec<u8>)>, body: Vec<u8>, today: &Date) -> (r: Result<
    Vec<Date>,
    RequestError,
>)
    requires
        today.valid(),
    ensures
        handled(headers.deep_view(), body@, *today, r),
{
    if !is_authorized(headers) {
        return Result::Err(RequestError::Unauthorized);
    }
    let text = match decode_body(body) {
        Some(text) => text,
        None => {
            return Result::Err(RequestError::Encoding);
        },
    };
    let entries: Vec<MoodEntry> = match parse_csv_string(text.as_str()) {
        Ok(entries) => entries,
        Err(_) => {
            return Result::Err(RequestError::Csv);
        },
    };
    match get_missing_entry_dates(&entries, today) {
        Ok(dates) => Result::Ok(dates),
        Err(GapError::NoEntries) => Result::Err(RequestError::NoEntries),
        Err(GapError::InvalidDate) => Result::Err(RequestError::InvalidDate),
    }
}

} // verus!
