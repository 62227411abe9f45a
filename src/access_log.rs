use vstd::prelude::*;

verus! {

/// The HTTP protocol versions a request can arrive with.
#[derive(Clone, Copy, Debug, PartialEq, Eq, Structural)]
pub enum HttpVersion {
    Http09,
    Http10,
    Http11,
    H2,
    H3,
}

/// How a version is written in the access log.
pub open spec fn version_label(v: HttpVersion) -> Seq<char> {
    match v {
        HttpVersion::Http09 => "HTTP/0.9"@,
        HttpVersion::Http10 => "HTTP/1.0"@,
        HttpVersion::Http11 => "HTTP/1.1"@,
        HttpVersion::H2 => "HTTP/2.0"@,
        HttpVersion::H3 => "HTTP/3.0"@,
    }
}

impl HttpVersion {
    pub fn label(&self) -> (r: String)
        ensures
            r@ == version_label(*self),
    {
        match self {
            HttpVersion::Http09 => String::from_str("HTTP/0.9"),
            HttpVersion::Http10 => String::from_str("HTTP/1.0"),
            HttpVersion::Http11 => String::from_str("HTTP/1.1"),
            HttpVersion::H2 => String::from_str("HTTP/2.0"),
            HttpVersion::H3 => String::from_str("HTTP/3.0"),
        }
    }
}

/// The character of a decimal digit.
pub open spec fn digit_char(d: nat) -> char {
    seq!['0', '1', '2', '3', '4', '5', '6', '7', '8', '9'][d as int]
}

/// The decimal digits of `n`, without leading zeros.
pub open spec fn decimal(n: nat) -> Seq<char>
    decreases n,
{
    if n < 10 {
        seq![digit_char(n)]
    } else {
        decimal(n / 10).push(digit_char(n % 10))
    }
}

fn digit_str(d: u16) -> (r: &'static str)
    requires
        d < 10,
    ensures
        r@ == seq![digit_char(d as nat)],
{
    proof {
        reveal_strlit("0");
        reveal_strlit("1");
        reveal_strlit("2");
        reveal_strlit("3");
        reveal_strlit("4");
        reveal_strlit("5");
        reveal_strlit("6");
        reveal_strlit("7");
        reveal_strlit("8");
        reveal_strlit("9");
    }
    match d {
        0 => "0",
        1 => "1",
        2 => "2",
        3 => "3",
        4 => "4",
        5 => "5",
        6 => "6",
        7 => "7",
        8 => "8",
        _ => "9",
    }
}

/// `n` written in decimal.
pub fn decimal_text(n: u16) -> (r: String)
    ensures
        r@ == decimal(n as nat),
    decreases n,
{
    if n < 10 {
        let r = String::from_str(digit_str(n));
        assert(r@ =~= decimal(n as nat));
        r
    } else {
        let mut r = decimal_text(n / 10);
        r.append(digit_str(n % 10));
        assert(r@ =~= decimal(n as nat));
        r
    }
}

/// `n` in decimal, with zeros in front up to `width` characters.
pub open spec fn zero_padded(n: nat, width: nat) -> Seq<char> {
    if decimal(n).len() < width {
        Seq::new((width - decimal(n).len()) as nat, |i: int| '0') + decimal(n)
    } else {
        decimal(n)
    }
}

/// `n` in decimal, padded with zeros to at least `width` characters.
pub fn zero_padded_text(n: u16, width: usize) -> (r: String)
    ensures
        r@ == zero_padded(n as nat, width as nat),
{
    let digits = decimal_text(n);
    let len = digits.as_str().unicode_len();
    let mut r = String::new();
    let mut i: usize = len;
    while i < width
        invariant
            len == decimal(n as nat).len(),
            len <= i <= width || (i == len && len >= width),
            r@ == Seq::new((i - len) as nat, |k: int| '0'),
        decreases width - i,
    {
        proof {
            reveal_strlit("0");
        }
        r.append("0");
        i = i + 1;
        assert(r@ =~= Seq::new((i - len) as nat, |k: int| '0'));
    }
    r.append(digits.as_str());
    assert(r@ =~= zero_padded(n as nat, width as nat));
    r
}

/// A wall-clock time in the local time zone, field by field.
#[derive(Clone, Copy, Debug, PartialEq, Eq, Structural)]
pub struct LocalTime {
    pub year: u16,
    pub month: u16,
    pub day: u16,
    pub hour: u16,
    pub minute: u16,
    pub second: u16,
}

impl LocalTime {
    /// A calendar time of a four-digit year; a leap second shows as 60.
    pub open spec fn well_formed(&self) -> bool {
        &&& self.year <= 9999
        &&& 1 <= self.month <= 12
        &&& 1 <= self.day <= 31
        &&& self.hour < 24
        &&& self.minute < 60
        &&& self.second <= 60
    }

    /// The time as the log writes it: `YYYY-MM-DD HH:MM:SS`.
    pub open spec fn stamp(&self) -> Seq<char> {
        zero_padded(self.year as nat, 4) + seq!['-'] + zero_padded(self.month as nat, 2) + seq!['-']
            + zero_padded(self.day as nat, 2) + seq![' '] + zero_padded(self.hour as nat, 2)
            + seq![':'] + zero_padded(self.minute as nat, 2) + seq![':']
            + zero_padded(self.second as nat, 2)
    }

    pub fn stamp_text(&self) -> (r: String)
        ensures
            r@ == self.stamp(),
    {
        proof {
            reveal_strlit("-");
            reveal_strlit(" ");
            reveal_strlit(":");
        }
        let mut r = zero_padded_text(self.year, 4);
        r.append("-");
        r.append(zero_padded_text(self.month, 2).as_str());
        r.append("-");
        r.append(zero_padded_text(self.day, 2).as_str());
        r.append(" ");
        r.append(zero_padded_text(self.hour, 2).as_str());
        r.append(":");
        r.append(zero_padded_text(self.minute, 2).as_str());
        r.append(":");
        r.append(zero_padded_text(self.second, 2).as_str());
        assert(r@ =~= self.stamp());
        r
    }
}

/// The reason phrase of a status code, as hyper's table of registered codes
/// gives it (`None` for a code the table does not know).
pub uninterp spec fn reason_of(code: u16) -> Option<Seq<char>>;

/// The text of an optional reason phrase.
pub open spec fn reason_view(r: Option<String>) -> Option<Seq<char>> {
    match r {
        Some(s) => Some(s@),
        None => None,
    }
}

/// Relies on hyper's `StatusCode::from_u16`, which refuses codes outside
/// 100..=999, and `StatusCode::canonical_reason`, which looks the code up in
/// the table of registered reason phrases.
#[verifier::external_body]
fn canonical_reason(code: u16) -> (r: Option<String>)
    ensures
        reason_view(r) == reason_of(code),
        code < 100 || code > 999 ==> r is None,
{
    match hyper::StatusCode::from_u16(code) {
        Ok(status) => status.canonical_reason().map(String::from),
        Err(_) => None,
    }
}

/// A status as the log shows it: the code, a space, and the reason phrase,
/// or a placeholder for a code without one.
pub open spec fn status_label(code: u16, reason: Option<Seq<char>>) -> Seq<char> {
    decimal(code as nat) + seq![' '] + match reason {
        Some(r) => r,
        None => "<unknown status code>"@,
    }
}

/// The status text of `code` given its reason phrase, if it has one.
pub fn status_text_with(code: u16, reason: Option<&str>) -> (r: String)
    ensures
        r@ == status_label(code, match reason { Some(s) => Some(s@), None => None }),
{
    let mut r = decimal_text(code);
    proof {
        reveal_strlit(" ");
    }
    r.append(" ");
    match reason {
        Some(s) => r.append(s),
        None => r.append("<unknown status code>"),
    }
    r
}

/// The status text of `code`, with the reason phrase that hyper registers
/// for it.
pub fn status_text(code: u16) -> (r: String)
    ensures
        r@ == status_label(code, reason_of(code)),
{
    let reason = canonical_reason(code);
    match &reason {
        Some(s) => status_text_with(code, Some(s.as_str())),
        None => status_text_with(code, None),
    }
}

/// One access-log line:
/// `[<time>] <METHOD> <host><path> <version> <status>`.
pub open spec fn access_line_spec(
    time: Seq<char>,
    method: Seq<char>,
    host: Seq<char>,
    path: Seq<char>,
    version: HttpVersion,
    status: Seq<char>,
) -> Seq<char> {
    seq!['['] + time + seq![']', ' '] + method + seq![' '] + host + path + seq![' ']
        + version_label(version) + seq![' '] + status
}

pub fn access_line(
    time: &str,
    method: &str,
    host: &str,
    path: &str,
    version: HttpVersion,
    status: &str,
) -> (r: String)
    ensures
        r@ == access_line_spec(time@, method@, host@, path@, version, status@),
{
    proof {
        reveal_strlit("[");
        reveal_strlit("] ");
        reveal_strlit(" ");
    }
    let mut r = String::from_str("[");
    r.append(time);
    r.append("] ");
    r.append(method);
    r.append(" ");
    r.append(host);
    r.append(path);
    r.append(" ");
    let v = version.label();
    r.append(v.as_str());
    r.append(" ");
    r.append(status);
    assert(r@ =~= access_line_spec(time@, method@, host@, path@, version, status@));
    r
}

} // verus!
