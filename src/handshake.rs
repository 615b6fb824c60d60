//! The connection handshake: the greeting the client sends and the server's reply.
use vstd::prelude::*;
use vstd::utf8::encode_utf8;

use chrono::{Datelike, Timelike};

use crate::decimal::{decimal_text, i64_text, parse_u32, signed_text, u32_of, u64_text};
use crate::frame::{decode_body, encode_frame, fields_of_body, frame_of, FrameError};

verus! {

/// The lowest protocol version this client speaks.
pub const MIN_CLIENT_VERSION: u32 = 100;

/// The highest protocol version this client speaks.
pub const MAX_CLIENT_VERSION: u32 = 176;

/// The tag of the message that starts the API session.
pub const START_API_CODE: i64 = 71;

/// The version of the start-API message.
pub const START_API_VERSION: i64 = 2;

/// A calendar date and time of day, as the server states the connection time.
#[derive(Debug, Clone, Copy, PartialEq, Eq, Structural, PartialOrd, Ord, Hash)]
pub struct Timestamp {
    pub year: i32,
    pub month: u32,
    pub day: u32,
    pub hour: u32,
    pub minute: u32,
    pub second: u32,
    /// Nanoseconds past the second; 1_000_000_000 and above mark a leap second.
    pub nanosecond: u32,
}

impl Timestamp {
    /// Whether every part lies in its range.
    pub open spec fn wf(&self) -> bool {
        &&& 1 <= self.month <= 12
        &&& 1 <= self.day <= 31
        &&& self.hour < 24
        &&& self.minute < 60
        &&& self.second < 60
        &&& self.nanosecond < 2_000_000_000
    }
}

/// What the server's handshake reply states.
#[derive(Debug, Clone, Copy, PartialEq, Eq, Structural)]
pub struct Handshake {
    pub server_version: u32,
    pub conn_time: Timestamp,
}

/// Why a handshake reply was refused.
#[derive(Debug, Clone, Copy, PartialEq, Eq, Structural)]
pub enum HandshakeError {
    /// The reply is not valid UTF-8.
    BadEncoding,
    /// The first field is not a protocol version.
    BadVersion,
    /// There is no second field with the connection time.
    MissingTime,
    /// The connection time could not be read.
    BadTime,
}

/// The date and time that chrono's `NaiveDateTime::parse_and_remainder` reads from the
/// start of `s` with the pattern `fmt`.
pub uninterp spec fn datetime_prefix(s: Seq<char>, fmt: Seq<char>) -> Option<Timestamp>;

/// Whether std's `char::is_numeric` holds of `c`.
pub uninterp spec fn numeric_char(c: char) -> bool;

/// Relies on chrono's `NaiveDateTime::parse_and_remainder`: reads a date and time from the
/// start of `s` as `fmt` describes, ignoring what follows. Its accessors keep month and day
/// from 1, hour, minute and second below 24, 60 and 60, and nanoseconds below 2 * 10^9.
#[verifier::external_body]
fn parse_datetime_prefix(s: &str, fmt: &str) -> (r: Option<Timestamp>)
    ensures
        r == datetime_prefix(s@, fmt@),
        r matches Some(t) ==> t.wf(),
{
    match chrono::NaiveDateTime::parse_and_remainder(s, fmt) {
        Ok((t, _)) => Some(
            Timestamp {
                year: t.year(),
                month: t.month(),
                day: t.day(),
                hour: t.hour(),
                minute: t.minute(),
                second: t.second(),
                nanosecond: t.nanosecond(),
            },
        ),
        Err(_) => None,
    }
}

/// Relies on std's `char::is_numeric`.
#[verifier::external_body]
fn is_numeric(c: char) -> (r: bool)
    ensures
        r == numeric_char(c),
{
    c.is_numeric()
}

/// `s` without the characters that follow its last numeric character.
pub open spec fn trim_non_numeric(s: Seq<char>) -> Seq<char>
    decreases s.len(),
{
    if s.len() == 0 || numeric_char(s.last()) {
        s
    } else {
        trim_non_numeric(s.drop_last())
    }
}

/// The pattern of the connection time: date, a space, then hours, minutes and seconds.
pub open spec fn conn_time_pattern() -> Seq<char> {
    "%Y%m%d %X"@
}

/// The handshake that a reply's fields and its parsed connection time state.
pub open spec fn handshake_of(fields: Seq<Seq<char>>, conn_time: Option<Timestamp>) -> Result<
    Handshake,
    HandshakeError,
> {
    if fields.len() == 0 {
        Err(HandshakeError::BadVersion)
    } else {
        match u32_of(fields[0]) {
            None => Err(HandshakeError::BadVersion),
            Some(v) => if fields.len() < 2 {
                Err(HandshakeError::MissingTime)
            } else {
                match conn_time {
                    None => Err(HandshakeError::BadTime),
                    Some(t) => Ok(Handshake { server_version: v, conn_time: t }),
                }
            },
        }
    }
}

/// The handshake that the reply body `b` states.
pub open spec fn reply_of(b: Seq<u8>) -> Result<Handshake, HandshakeError> {
    match fields_of_body(b) {
        None => Err(HandshakeError::BadEncoding),
        Some(fields) => handshake_of(
            fields,
            if fields.len() >= 2 {
                datetime_prefix(trim_non_numeric(fields[1]), conn_time_pattern())
            } else {
                None
            },
        ),
    }
}

/// The text that offers the range of protocol versions.
pub open spec fn version_range_text(min: u32, max: u32) -> Seq<char> {
    seq!['v'] + decimal_text(min as nat) + seq!['.', '.'] + decimal_text(max as nat)
}

/// `s` without the characters that follow its last numeric character.
pub fn trim_trailing_non_numeric(s: &str) -> (r: &str)
    ensures
        r@ == trim_non_numeric(s@),
{
    let mut k = s.unicode_len();
    assert(s@.take(k as int) =~= s@);
    while k > 0 && !is_numeric(s.get_char(k - 1))
        invariant
            k <= s@.len(),
            trim_non_numeric(s@.take(k as int)) == trim_non_numeric(s@),
        decreases k,
    {
        assert(s@.take(k as int).drop_last() =~= s@.take(k - 1));
        k = k - 1;
    }
    assert(k > 0 ==> s@.take(k as int).last() == s@[k - 1]);
    assert(k == 0 ==> s@.take(k as int) =~= Seq::<char>::empty());
    s.substring_char(0, k)
}

/// The handshake that a reply's fields state, given the connection time parsed from its
/// second field.
pub fn handshake_from(fields: &Vec<String>, conn_time: Option<Timestamp>) -> (r: Result<
    Handshake,
    HandshakeError,
>)
    ensures
        r == handshake_of(fields.deep_view(), conn_time),
{
    if fields.len() == 0 {
        return Err(HandshakeError::BadVersion);
    }
    assert(fields.deep_view()[0] == fields@[0]@);
    let version = match parse_u32(fields[0].as_str()) {
        Some(v) => v,
        None => {
            return Err(HandshakeError::BadVersion);
        },
    };
    if fields.len() < 2 {
        return Err(HandshakeError::MissingTime);
    }
    match conn_time {
        Some(t) => Ok(Handshake { server_version: version, conn_time: t }),
        None => Err(HandshakeError::BadTime),
    }
}

/// Reads the server's handshake reply: its protocol version, then the connection time,
/// with the time-zone name that trails it cut off.
pub fn parse_handshake(body: &Vec<u8>) -> (r: Result<Handshake, HandshakeError>)
    ensures
        r == reply_of(body@),
        r matches Ok(h) ==> h.conn_time.wf(),
{
    let fields = match decode_body(body) {
        Ok(f) => f,
        Err(_) => {
            return Err(HandshakeError::BadEncoding);
        },
    };
    let conn_time = if fields.len() >= 2 {
        assert(fields.deep_view()[1] == fields@[1]@);
        let text = trim_trailing_non_numeric(fields[1].as_str());
        proof {
            reveal_strlit("%Y%m%d %X");
        }
        parse_datetime_prefix(text, "%Y%m%d %X")
    } else {
        None
    };
    handshake_from(&fields, conn_time)
}

/// The greeting that opens a connection: `API`, a NUL byte, then a frame whose one field
/// offers the protocol versions from `min` to `max`.
pub fn handshake_request(min: u32, max: u32) -> (r: Result<Vec<u8>, FrameError>)
    ensures
        match frame_of(seq![version_range_text(min, max)]) {
            Some(f) => r matches Ok(v) && v@ == encode_utf8("API"@) + seq![0u8] + f,
            None => r == Err::<Vec<u8>, FrameError>(FrameError::TooLong),
        },
{
    let mut text = "v".to_owned();
    text.append(u64_text(min as u64).as_str());
    text.append("..");
    text.append(u64_text(max as u64).as_str());
    proof {
        reveal_strlit("v");
        reveal_strlit("..");
    }
    assert(text@ =~= version_range_text(min, max));
    let mut fields: Vec<String> = Vec::new();
    fields.push(text);
    assert(fields.deep_view() =~= seq![version_range_text(min, max)]);
    let frame = encode_frame(&fields)?;
    let prefix = "API".as_bytes();
    let mut out: Vec<u8> = Vec::new();
    let mut j: usize = 0;
    while j < prefix.len()
        invariant
            j <= prefix@.len(),
            out@ == prefix@.take(j as int),
        decreases prefix@.len() - j,
    {
        out.push(prefix[j]);
        j = j + 1;
        assert(prefix@.take(j as int) =~= prefix@.take(j - 1).push(prefix@[j - 1]));
    }
    assert(prefix@.take(j as int) =~= prefix@);
    out.push(0u8);
    let ghost head = out@;
    let mut k: usize = 0;
    while k < frame.len()
        invariant
            k <= frame@.len(),
            out@ == head + frame@.take(k as int),
        decreases frame@.len() - k,
    {
        out.push(frame[k]);
        k = k + 1;
        assert(frame@.take(k as int) =~= frame@.take(k - 1).push(frame@[k - 1]));
    }
    assert(frame@.take(k as int) =~= frame@);
    Ok(out)
}

/// The fields of the message that starts the API session for `client_id`: its tag, its
/// version, the client id, and an empty field for optional capabilities.
pub open spec fn start_api_fields(client_id: i64) -> Seq<Seq<char>> {
    seq![
        signed_text(START_API_CODE as int),
        signed_text(START_API_VERSION as int),
        signed_text(client_id as int),
        seq![],
    ]
}

/// The frame that starts the API session for `client_id`.
pub fn start_api_request(client_id: i64) -> (r: Result<Vec<u8>, FrameError>)
    ensures
        match frame_of(start_api_fields(client_id)) {
            Some(f) => r matches Ok(v) && v@ == f,
            None => r == Err::<Vec<u8>, FrameError>(FrameError::TooLong),
        },
{
    let mut fields: Vec<String> = Vec::new();
    fields.push(i64_text(START_API_CODE));
    fields.push(i64_text(START_API_VERSION));
    fields.push(i64_text(client_id));
    fields.push(String::new());
    assert(fields.deep_view() =~= start_api_fields(client_id));
    encode_frame(&fields)
}

} // verus!
