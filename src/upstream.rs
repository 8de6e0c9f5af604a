//! The upstream weather service: the reduced result this proxy returns, the
//! decoded upstream answer, and the reduction from one to the other.
use vstd::prelude::*;
use vstd::utf8::encode_utf8;

verus! {

/// Why an upstream call produced no weather result.
#[derive(Clone, Copy, Debug, PartialEq, Eq, Structural)]
pub enum FetchError {
    /// The request could not be sent or no answer came back.
    Transport,
    /// The answer was not a body of the expected shape.
    Decode,
    /// The answer held no description at all.
    EmptyResult,
}

/// What the upstream service answered, as far as this proxy reads it.
///
/// `temp_bits` is the IEEE-754 binary32 bit pattern of `main.temp`;
/// `descriptions` holds `weather[i].description` for each entry, in order.
pub struct UpstreamReport {
    pub temp_bits: u32,
    pub descriptions: Vec<String>,
}

/// The reduced payload handed back to this proxy's own callers.
///
/// `temperature_bits` is the IEEE-754 binary32 bit pattern of the temperature.
pub struct WeatherResult {
    pub temperature_bits: u32,
    pub description: String,
}

impl View for WeatherResult {
    /// The temperature's bit pattern and the description.
    type V = (u32, Seq<char>);

    open spec fn view(&self) -> (u32, Seq<char>) {
        (self.temperature_bits, self.description@)
    }
}

/// The result owed for an upstream report: its temperature and its first
/// description, or `EmptyResult` when there is no description.
pub open spec fn reduced(report: UpstreamReport) -> Result<(u32, Seq<char>), FetchError> {
    if report.descriptions@.len() == 0 {
        Err(FetchError::EmptyResult)
    } else {
        Ok((report.temp_bits, report.descriptions@[0]@))
    }
}

/// Reduces an upstream report to the payload this proxy returns.
pub fn extract_weather(report: &UpstreamReport) -> (r: Result<WeatherResult, FetchError>)
    ensures
        match r {
            Ok(w) => reduced(*report) == Ok::<(u32, Seq<char>), FetchError>(w@),
            Err(e) => reduced(*report) == Err::<(u32, Seq<char>), FetchError>(e),
        },
{
    if report.descriptions.len() == 0 {
        Err(FetchError::EmptyResult)
    } else {
        Ok(WeatherResult {
            temperature_bits: report.temp_bits,
            description: report.descriptions[0].clone(),
        })
    }
}

/// The endpoint of the upstream weather service.
pub const UPSTREAM_ENDPOINT: &'static str = "http://api.openweathermap.org/data/2.5/weather";

/// A byte that stands for itself in a URL query: an ASCII letter or digit,
/// `-`, `.`, `_` or `~`.
pub open spec fn is_unreserved(b: u8) -> bool {
    ||| 0x41 <= b <= 0x5a  // 'A' ..= 'Z'
    ||| 0x61 <= b <= 0x7a  // 'a' ..= 'z'
    ||| 0x30 <= b <= 0x39  // '0' ..= '9'
    ||| b == 0x2d || b == 0x2e || b == 0x5f || b == 0x7e  // '-', '.', '_', '~'
}

fn is_unreserved_byte(b: u8) -> (r: bool)
    ensures
        r == is_unreserved(b),
{
    (0x41 <= b && b <= 0x5a) || (0x61 <= b && b <= 0x7a) || (0x30 <= b && b <= 0x39) || b == 0x2d
        || b == 0x2e || b == 0x5f || b == 0x7e
}

/// The upper-case hexadecimal digit of `d`, for `d < 16`.
pub open spec fn hex_digit(d: u8) -> char {
    "0123456789ABCDEF"@[d as int]
}

/// How one byte is written in a URL query: itself where it is unreserved,
/// else `%` and its two hexadecimal digits.
pub open spec fn encode_byte(b: u8) -> Seq<char> {
    if is_unreserved(b) {
        seq![b as char]
    } else {
        seq!['%', hex_digit(b / 16), hex_digit(b % 16)]
    }
}

/// The percent-encoding of a byte string.
pub open spec fn percent_encoded(bytes: Seq<u8>) -> Seq<char>
    decreases bytes.len(),
{
    if bytes.len() == 0 {
        Seq::empty()
    } else {
        percent_encoded(bytes.drop_last()) + encode_byte(bytes.last())
    }
}

/// The upstream request for `city`, in metric units, authorised by `api_key`;
/// both values are percent-encoded over their UTF-8 bytes.
pub open spec fn upstream_url(api_key: Seq<char>, city: Seq<char>) -> Seq<char> {
    UPSTREAM_ENDPOINT@ + "?q="@ + percent_encoded(encode_utf8(city)) + "&appid="@
        + percent_encoded(encode_utf8(api_key)) + "&units=metric"@
}

/// Relies on `String::push`: appends one character.
#[verifier::external_body]
fn push_char(s: &mut String, c: char)
    ensures
        final(s)@ == old(s)@.push(c),
{
    s.push(c)
}

fn hex_char(d: u8) -> (c: char)
    requires
        d < 16,
    ensures
        c == hex_digit(d),
{
    let digits = "0123456789ABCDEF";
    proof {
        reveal_strlit("0123456789ABCDEF");
    }
    digits.get_char(d as usize)
}

/// Appends the percent-encoding of the UTF-8 bytes of `text` to `out`.
pub fn append_percent_encoded(out: &mut String, text: &str)
    ensures
        final(out)@ == old(out)@ + percent_encoded(encode_utf8(text@)),
{
    let bytes = text.as_bytes();
    let ghost start = out@;
    let mut i: usize = 0;
    assert(bytes@.take(0) =~= Seq::<u8>::empty());
    assert(start + Seq::<char>::empty() =~= start);
    while i < bytes.len()
        invariant
            i <= bytes@.len(),
            bytes@ == encode_utf8(text@),
            out@ == start + percent_encoded(bytes@.take(i as int)),
        decreases bytes@.len() - i,
    {
        let b = bytes[i];
        if is_unreserved_byte(b) {
            push_char(out, b as char);
        } else {
            push_char(out, '%');
            push_char(out, hex_char(b / 16));
            push_char(out, hex_char(b % 16));
        }
        assert(bytes@.take(i + 1).drop_last() =~= bytes@.take(i as int));
        assert(out@ =~= start + percent_encoded(bytes@.take(i + 1)));
        i += 1;
    }
    assert(bytes@.take(i as int) =~= bytes@);
}

/// Builds the upstream request URL for `city`.
pub fn build_upstream_url(api_key: &str, city: &str) -> (r: String)
    ensures
        r@ == upstream_url(api_key@, city@),
{
    let mut url = UPSTREAM_ENDPOINT.to_owned();
    url.append("?q=");
    append_percent_encoded(&mut url, city);
    url.append("&appid=");
    append_percent_encoded(&mut url, api_key);
    url.append("&units=metric");
    url
}

} // verus!
