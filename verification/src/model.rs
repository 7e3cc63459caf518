//! The records the gateway works with — users, devices and the room
//! connections pairing them — and the timestamp type their date fields are
//! carried in, with its wire format.

use vstd::prelude::*;

verus! {

/// A calendar timestamp, second precision, as the store and the wire format
/// carry it.
#[derive(Clone, Copy, PartialEq, Eq, Structural, Debug)]
pub struct Timestamp {
    /// Year, at most four digits.
    pub year: u16,
    /// Month, 1 to 12.
    pub month: u8,
    /// Day of month, 1 to 31.
    pub day: u8,
    /// Hour, 0 to 23.
    pub hour: u8,
    /// Minute, 0 to 59.
    pub minute: u8,
    /// Second, 0 to 59.
    pub second: u8,
}

impl Timestamp {
    /// Each field within its range. The day bound is the coarse 1 to 31;
    /// finer calendar validity is the store's affair.
    pub open spec fn wf(self) -> bool {
        &&& self.year <= 9999
        &&& 1 <= self.month <= 12
        &&& 1 <= self.day <= 31
        &&& self.hour <= 23
        &&& self.minute <= 59
        &&& self.second <= 59
    }
}

/// The decimal digit character of `d`.
pub open spec fn digit_char(d: int) -> char {
    ((48 + d) as u8) as char
}

/// The numeric value of a decimal digit character.
pub open spec fn digit_val(c: char) -> int {
    c as u32 - 48
}

/// Whether `c` is a decimal digit character.
pub open spec fn is_digit(c: char) -> bool {
    48 <= c as u32 <= 57
}

/// `n` as two decimal digits.
pub open spec fn two_digits(n: int) -> Seq<char> {
    seq![digit_char(n / 10), digit_char(n % 10)]
}

/// `n` as four decimal digits.
pub open spec fn four_digits(n: int) -> Seq<char> {
    seq![
        digit_char(n / 1000),
        digit_char((n / 100) % 10),
        digit_char((n / 10) % 10),
        digit_char(n % 10),
    ]
}

/// The wire rendering of a timestamp: `YYYY-MM-DDTHH:MM:SS`.
pub open spec fn timestamp_chars(ts: Timestamp) -> Seq<char> {
    four_digits(ts.year as int) + seq!['-'] + two_digits(ts.month as int) + seq!['-'] + two_digits(
        ts.day as int,
    ) + seq!['T'] + two_digits(ts.hour as int) + seq![':'] + two_digits(ts.minute as int)
        + seq![':'] + two_digits(ts.second as int)
}

/// What a character sequence parses to under the wire format: nineteen
/// characters, digits and separators in place, fields in range.
pub open spec fn parse_timestamp_view(s: Seq<char>) -> Option<Timestamp> {
    if s.len() == 19 && is_digit(s[0]) && is_digit(s[1]) && is_digit(s[2]) && is_digit(s[3])
        && s[4] == '-' && is_digit(s[5]) && is_digit(s[6]) && s[7] == '-' && is_digit(s[8])
        && is_digit(s[9]) && s[10] == 'T' && is_digit(s[11]) && is_digit(s[12]) && s[13] == ':'
        && is_digit(s[14]) && is_digit(s[15]) && s[16] == ':' && is_digit(s[17]) && is_digit(
        s[18],
    ) {
        let ts = Timestamp {
            year: (digit_val(s[0]) * 1000 + digit_val(s[1]) * 100 + digit_val(s[2]) * 10
                + digit_val(s[3])) as u16,
            month: (digit_val(s[5]) * 10 + digit_val(s[6])) as u8,
            day: (digit_val(s[8]) * 10 + digit_val(s[9])) as u8,
            hour: (digit_val(s[11]) * 10 + digit_val(s[12])) as u8,
            minute: (digit_val(s[14]) * 10 + digit_val(s[15])) as u8,
            second: (digit_val(s[17]) * 10 + digit_val(s[18])) as u8,
        };
        if ts.wf() {
            Some(ts)
        } else {
            None
        }
    } else {
        None
    }
}

/// Renders `ts` in the wire format `YYYY-MM-DDTHH:MM:SS`.
pub fn format_timestamp(ts: &Timestamp) -> (r: String)
    requires
        ts.wf(),
    ensures
        r@ == timestamp_chars(*ts),
{
    let mut bytes: Vec<u8> = Vec::new();
    push_four_digits(&mut bytes, ts.year);
    bytes.push(45);
    push_two_digits(&mut bytes, ts.month as u16);
    bytes.push(45);
    push_two_digits(&mut bytes, ts.day as u16);
    bytes.push(84);
    push_two_digits(&mut bytes, ts.hour as u16);
    bytes.push(58);
    push_two_digits(&mut bytes, ts.minute as u16);
    bytes.push(58);
    push_two_digits(&mut bytes, ts.second as u16);
    let r = crate::util::ascii_bytes_to_string(bytes);
    proof {
        assert(r@ =~= timestamp_chars(*ts));
    }
    r
}

/// Appends the two decimal digits of `n`.
fn push_two_digits(bytes: &mut Vec<u8>, n: u16)
    requires
        n <= 99,
    ensures
        final(bytes)@ == old(bytes)@ + seq![(48 + n / 10) as u8, (48 + n % 10) as u8],
        final(bytes)@.len() == old(bytes)@.len() + 2,
{
    bytes.push((48 + n / 10) as u8);
    bytes.push((48 + n % 10) as u8);
    proof {
        assert(final(bytes)@ =~= old(bytes)@ + seq![(48 + n / 10) as u8, (48 + n % 10) as u8]);
    }
}

/// Appends the four decimal digits of `n`.
fn push_four_digits(bytes: &mut Vec<u8>, n: u16)
    requires
        n <= 9999,
    ensures
        final(bytes)@ == old(bytes)@ + seq![
            (48 + n / 1000) as u8,
            (48 + (n / 100) % 10) as u8,
            (48 + (n / 10) % 10) as u8,
            (48 + n % 10) as u8,
        ],
        final(bytes)@.len() == old(bytes)@.len() + 4,
{
    bytes.push((48 + n / 1000) as u8);
    bytes.push((48 + (n / 100) % 10) as u8);
    bytes.push((48 + (n / 10) % 10) as u8);
    bytes.push((48 + n % 10) as u8);
    proof {
        assert(final(bytes)@ =~= old(bytes)@ + seq![
            (48 + n / 1000) as u8,
            (48 + (n / 100) % 10) as u8,
            (48 + (n / 10) % 10) as u8,
            (48 + n % 10) as u8,
        ]);
    }
}

/// Parses the wire format `YYYY-MM-DDTHH:MM:SS`, exactly as
/// `parse_timestamp_view` describes.
pub fn parse_timestamp(s: &str) -> (r: Option<Timestamp>)
    ensures
        r == parse_timestamp_view(s@),
{
    let n = s.unicode_len();
    if n != 19 {
        return None;
    }
    if s.get_char(4) != '-' || s.get_char(7) != '-' || s.get_char(10) != 'T' || s.get_char(13)
        != ':' || s.get_char(16) != ':' {
        return None;
    }
    let year = match read_digits(s, 0, 4) {
        Some(v) => v,
        None => {
            return None;
        },
    };
    let month = match read_digits(s, 5, 2) {
        Some(v) => v,
        None => {
            return None;
        },
    };
    let day = match read_digits(s, 8, 2) {
        Some(v) => v,
        None => {
            return None;
        },
    };
    let hour = match read_digits(s, 11, 2) {
        Some(v) => v,
        None => {
            return None;
        },
    };
    let minute = match read_digits(s, 14, 2) {
        Some(v) => v,
        None => {
            return None;
        },
    };
    let second = match read_digits(s, 17, 2) {
        Some(v) => v,
        None => {
            return None;
        },
    };
    let ts = Timestamp {
        year,
        month: month as u8,
        day: day as u8,
        hour: hour as u8,
        minute: minute as u8,
        second: second as u8,
    };
    if ts.year <= 9999 && 1 <= ts.month && ts.month <= 12 && 1 <= ts.day && ts.day <= 31
        && ts.hour <= 23 && ts.minute <= 59 && ts.second <= 59 {
        Some(ts)
    } else {
        None
    }
}

/// The value of the `count` digits of `s` starting at `at`, or nothing if
/// one of them is not a digit.
fn read_digits(s: &str, at: usize, count: usize) -> (r: Option<u16>)
    requires
        1 <= count <= 4,
        at + count <= s@.len(),
        s@.len() <= usize::MAX,
    ensures
        match r {
            Some(v) => {
                &&& forall|j: int| at <= j < at + count ==> is_digit(#[trigger] s@[j])
                &&& if count == 2 {
                    v == digit_val(s@[at as int]) * 10 + digit_val(s@[at + 1])
                } else if count == 4 {
                    v == digit_val(s@[at as int]) * 1000 + digit_val(s@[at + 1]) * 100 + digit_val(
                        s@[at + 2],
                    ) * 10 + digit_val(s@[at + 3])
                } else {
                    true
                }
            },
            None => exists|j: int| at <= j < at + count && !is_digit(#[trigger] s@[j]),
        },
{
    let mut v: u32 = 0;
    let mut j: usize = 0;
    while j < count
        invariant
            1 <= count <= 4,
            at + count <= s@.len(),
            j <= count,
            s@.len() <= usize::MAX,
            forall|m: int| at <= m < at + j ==> is_digit(#[trigger] s@[m]),
            j == 0 ==> v == 0,
            j == 1 ==> v <= 9,
            j == 2 ==> v <= 99,
            j == 3 ==> v <= 999,
            j == 4 ==> v <= 9999,
            j == 1 ==> v == digit_val(s@[at as int]),
            j == 2 ==> v == digit_val(s@[at as int]) * 10 + digit_val(s@[at + 1]),
            j == 3 ==> v == digit_val(s@[at as int]) * 100 + digit_val(s@[at + 1]) * 10
                + digit_val(s@[at + 2]),
            j == 4 ==> v == digit_val(s@[at as int]) * 1000 + digit_val(s@[at + 1]) * 100
                + digit_val(s@[at + 2]) * 10 + digit_val(s@[at + 3]),
        decreases count - j,
    {
        let c = s.get_char(at + j);
        let x = c as u32;
        if x < 48 || x > 57 {
            return None;
        }
        v = v * 10 + (x - 48);
        j += 1;
    }
    Some(v as u16)
}

/// Formatting then parsing restores the timestamp: the wire format is
/// lossless on well-formed timestamps.
#[verifier::rlimit(100)]
#[verifier::spinoff_prover]
pub proof fn lemma_timestamp_round_trip(ts: Timestamp)
    requires
        ts.wf(),
    ensures
        parse_timestamp_view(timestamp_chars(ts)) == Some(ts),
{
    let s = timestamp_chars(ts);
    let y = ts.year as int;
    let mo = ts.month as int;
    let d = ts.day as int;
    let h = ts.hour as int;
    let mi = ts.minute as int;
    let sec = ts.second as int;
    assert(s.len() == 19);
    assert(s[0] == digit_char(y / 1000));
    assert(s[1] == digit_char((y / 100) % 10));
    assert(s[2] == digit_char((y / 10) % 10));
    assert(s[3] == digit_char(y % 10));
    assert(s[4] == '-');
    assert(s[5] == digit_char(mo / 10));
    assert(s[6] == digit_char(mo % 10));
    assert(s[7] == '-');
    assert(s[8] == digit_char(d / 10));
    assert(s[9] == digit_char(d % 10));
    assert(s[10] == 'T');
    assert(s[11] == digit_char(h / 10));
    assert(s[12] == digit_char(h % 10));
    assert(s[13] == ':');
    assert(s[14] == digit_char(mi / 10));
    assert(s[15] == digit_char(mi % 10));
    assert(s[16] == ':');
    assert(s[17] == digit_char(sec / 10));
    assert(s[18] == digit_char(sec % 10));
    lemma_digit_char_val(y / 1000);
    lemma_digit_char_val((y / 100) % 10);
    lemma_digit_char_val((y / 10) % 10);
    lemma_digit_char_val(y % 10);
    lemma_digit_char_val(mo / 10);
    lemma_digit_char_val(mo % 10);
    lemma_digit_char_val(d / 10);
    lemma_digit_char_val(d % 10);
    lemma_digit_char_val(h / 10);
    lemma_digit_char_val(h % 10);
    lemma_digit_char_val(mi / 10);
    lemma_digit_char_val(mi % 10);
    lemma_digit_char_val(sec / 10);
    lemma_digit_char_val(sec % 10);
    assert(y == (y / 1000) * 1000 + ((y / 100) % 10) * 100 + ((y / 10) % 10) * 10 + y % 10);
    assert(mo == (mo / 10) * 10 + mo % 10);
    assert(d == (d / 10) * 10 + d % 10);
    assert(h == (h / 10) * 10 + h % 10);
    assert(mi == (mi / 10) * 10 + mi % 10);
    assert(sec == (sec / 10) * 10 + sec % 10);
    assert(parse_timestamp_view(s) == Some(ts));
}

/// A digit character is a digit and reads back as its value.
proof fn lemma_digit_char_val(d: int)
    requires
        0 <= d <= 9,
    ensures
        is_digit(digit_char(d)),
        digit_val(digit_char(d)) == d,
{
    assert(((48 + d) as u8) as char as u32 == 48 + d);
}

/// A user record, as the store holds it.
#[derive(Clone, Debug)]
pub struct User {
    /// The user's opaque identifier.
    pub id: String,
    /// The chosen name, once registration completes.
    pub username: Option<String>,
    /// The stored password digest, once registration completes.
    pub password: Option<String>,
    /// The address registration was started with.
    pub email: String,
    /// The emailed token an unverified registration waits on.
    pub verification_token: Option<String>,
    /// The bearer token the user connects with, when logged in.
    pub access_token: Option<String>,
    /// When the record was created.
    pub created_at: Timestamp,
    /// When the bearer token lapses.
    pub access_token_expire: Option<Timestamp>,
}

/// A device record, as the store holds it.
#[derive(Clone, Debug)]
pub struct Device {
    /// The device's opaque identifier.
    pub id: String,
    /// When the record was created.
    pub created_at: Timestamp,
    /// The bearer token the device connects with.
    pub access_token: String,
}

/// A room: the pairing of one device with one user allowed to observe it.
#[derive(Clone, Debug)]
pub struct Connection {
    /// The room's identifier.
    pub room_id: String,
    /// The observing user.
    pub user_id: String,
    /// The device the room serves.
    pub device_id: String,
}

/// How many days an access token stays valid.
pub const ACCESS_TOKEN_VALID_DAYS: u16 = 14;

/// Relies on `time::OffsetDateTime::now_utc`: the current UTC calendar
/// date. The `time` crate keeps years within plus or minus 9999 and month
/// and day in calendar range; nothing else is promised of the clock.
#[verifier::external_body]
fn current_utc_date() -> (r: (i32, u8, u8))
    ensures
        -9999 <= r.0 <= 9999,
        1 <= r.1 <= 12,
        1 <= r.2 <= 31,
{
    let d = time::OffsetDateTime::now_utc().date();
    (d.year(), d.month() as u8, d.day())
}

/// Relies on `time::Date::saturating_add`: the calendar date `days` days
/// later, clamped to the `time` crate's representable range; nothing if the
/// given date is not a calendar date.
#[verifier::external_body]
fn date_plus_days(year: i32, month: u8, day: u8, days: u16) -> (r: Option<(i32, u8, u8)>)
    ensures
        r matches Some(d) ==> -9999 <= d.0 <= 9999 && 1 <= d.1 <= 12 && 1 <= d.2 <= 31,
{
    let m = match time::Month::try_from(month) {
        Ok(m) => m,
        Err(_) => {
            return None;
        },
    };
    let date = match time::Date::from_calendar_date(year, m, day) {
        Ok(d) => d,
        Err(_) => {
            return None;
        },
    };
    let shifted = date.saturating_add(time::Duration::days(days as i64));
    Some((shifted.year(), shifted.month() as u8, shifted.day()))
}

/// The expiry recorded for a token minted on the given date: midnight of
/// the day `ACCESS_TOKEN_VALID_DAYS` days later, when that day exists and
/// the wire format can carry it.
pub fn expiry_from(year: i32, month: u8, day: u8) -> (r: Option<Timestamp>)
    ensures
        r matches Some(ts) ==> ts.wf() && ts.hour == 0 && ts.minute == 0 && ts.second == 0,
{
    match date_plus_days(year, month, day, ACCESS_TOKEN_VALID_DAYS) {
        Some((y2, m2, d2)) => {
            if 0 <= y2 && y2 <= 9999 {
                Some(
                    Timestamp {
                        year: y2 as u16,
                        month: m2,
                        day: d2,
                        hour: 0,
                        minute: 0,
                        second: 0,
                    },
                )
            } else {
                None
            }
        },
        None => None,
    }
}

/// The expiry recorded for a token minted now.
pub fn access_token_expire_date() -> (r: Option<Timestamp>)
    ensures
        r matches Some(ts) ==> ts.wf() && ts.hour == 0 && ts.minute == 0 && ts.second == 0,
{
    let (y, m, d) = current_utc_date();
    expiry_from(y, m, d)
}

} // verus!
