//! The headers of a message: parsing them out of the raw bytes, which is left
//! to `mailparse`, and looking a header up by its name.

use vstd::prelude::*;
use vstd::string::*;

verus! {

/// One header of a message, decoded to text.
#[derive(Debug)]
pub struct Header {
    /// The name, as the message spells it.
    pub key: String,
    /// The value, unfolded and with encoded words decoded.
    pub value: String,
}

impl View for Header {
    type V = (Seq<char>, Seq<char>);

    open spec fn view(&self) -> (Seq<char>, Seq<char>) {
        (self.key@, self.value@)
    }
}

/// The headers of a list, each as a pair of name and value.
pub open spec fn header_views(headers: Seq<Header>) -> Seq<(Seq<char>, Seq<char>)> {
    headers.map_values(|h: Header| h@)
}

/// `mailparse::MailParseError`, the error of every `mailparse` function that
/// is called here. Nothing is read out of it.
#[verifier::external_type_specification]
#[verifier::external_body]
pub struct ExMailParseError(mailparse::MailParseError);

/// The headers that `mailparse::parse_headers` finds at the start of `data`,
/// or `None` where it reports an error.
pub uninterp spec fn spec_parse_headers(data: Seq<u8>) -> Option<Seq<(Seq<char>, Seq<char>)>>;

/// The headers of the message that `mailparse::parse_mail` makes of `data`,
/// or `None` where it reports an error.
pub uninterp spec fn spec_parse_mail(data: Seq<u8>) -> Option<Seq<(Seq<char>, Seq<char>)>>;

/// The seconds since the epoch that `mailparse::dateparse` reads out of
/// `date`, or `None` where it reports an error.
pub uninterp spec fn spec_dateparse(date: Seq<char>) -> Option<i64>;

/// Calls `mailparse::parse_headers` on `data` and hands out each header it
/// returns as its `get_key()` and `get_value()`, in the order of the message.
/// The contract only names the outcome: the call succeeds exactly where
/// [`spec_parse_headers`] is `Some`, with those headers.
#[verifier::external_body]
pub(crate) fn parse_headers(data: &[u8]) -> (parsed: Result<
    Vec<Header>,
    mailparse::MailParseError,
>)
    ensures
        parsed matches Ok(headers) ==> spec_parse_headers(data@) == Some(header_views(headers@)),
        parsed is Err ==> spec_parse_headers(data@) is None,
{
    match mailparse::parse_headers(data) {
        Ok((headers, _)) => Ok(
            headers.iter().map(|h| Header { key: h.get_key(), value: h.get_value() }).collect(),
        ),
        Err(e) => Err(e),
    }
}

/// Calls `mailparse::parse_mail` on `data` and hands out each header of the
/// message's `get_headers()` as its `get_key()` and `get_value()`, in the
/// order of the message. The contract only names the outcome: the call
/// succeeds exactly where [`spec_parse_mail`] is `Some`, with those headers.
#[verifier::external_body]
pub(crate) fn parse_mail(data: &[u8]) -> (parsed: Result<Vec<Header>, mailparse::MailParseError>)
    ensures
        parsed matches Ok(headers) ==> spec_parse_mail(data@) == Some(header_views(headers@)),
        parsed is Err ==> spec_parse_mail(data@) is None,
{
    match mailparse::parse_mail(data) {
        Ok(mail) => Ok(
            mail.get_headers().into_iter().map(
                |h| Header { key: h.get_key(), value: h.get_value() },
            ).collect(),
        ),
        Err(e) => Err(e),
    }
}

/// Calls `mailparse::dateparse` on `date`. The contract only names the
/// outcome: the call succeeds exactly where [`spec_dateparse`] is `Some`, with
/// that number of seconds.
#[verifier::external_body]
pub(crate) fn dateparse(date: &str) -> (parsed: Result<i64, mailparse::MailParseError>)
    ensures
        parsed matches Ok(seconds) ==> spec_dateparse(date@) == Some(seconds),
        parsed is Err ==> spec_dateparse(date@) is None,
{
    mailparse::dateparse(date)
}

/// `c`, in lower case if it is an ASCII capital.
pub open spec fn ascii_lower(c: char) -> char {
    if 'A' <= c <= 'Z' {
        ((c as u32) + 32) as char
    } else {
        c
    }
}

/// Whether two header names are the same: they are, if they differ in the
/// case of ASCII letters at most.
pub open spec fn same_name(a: Seq<char>, b: Seq<char>) -> bool {
    &&& a.len() == b.len()
    &&& forall|i: int| 0 <= i < a.len() ==> ascii_lower(a[i]) == ascii_lower(b[i])
}

/// The value of the first header from position `from` on whose name is `key`.
pub open spec fn first_value_from(
    headers: Seq<(Seq<char>, Seq<char>)>,
    key: Seq<char>,
    from: int,
) -> Option<Seq<char>>
    decreases headers.len() - from,
{
    if from < 0 || from >= headers.len() {
        None
    } else if same_name(headers[from].0, key) {
        Some(headers[from].1)
    } else {
        first_value_from(headers, key, from + 1)
    }
}

/// The value of the first header whose name is `key`, if there is one.
pub open spec fn first_value(headers: Seq<(Seq<char>, Seq<char>)>, key: Seq<char>) -> Option<
    Seq<char>,
> {
    first_value_from(headers, key, 0)
}

/// The code of `c` once an ASCII capital is put into lower case.
fn lower_code(c: char) -> (code: u32)
    ensures
        code == ascii_lower(c) as u32,
{
    if 'A' <= c && c <= 'Z' {
        c as u32 + 32
    } else {
        c as u32
    }
}

/// Decides whether two header names are the same.
pub fn is_same_name(a: &str, b: &str) -> (same: bool)
    ensures
        same == same_name(a@, b@),
{
    let n = a.unicode_len();
    if n != b.unicode_len() {
        return false;
    }
    let mut i: usize = 0;
    while i < n
        invariant
            n == a@.len(),
            n == b@.len(),
            i <= n,
            forall|j: int| 0 <= j < i ==> ascii_lower(a@[j]) == ascii_lower(b@[j]),
        decreases n - i,
    {
        if lower_code(a.get_char(i)) != lower_code(b.get_char(i)) {
            return false;
        }
        i += 1;
    }
    true
}

/// Looks up the value of the first header named `key`.
pub fn get_first_value(headers: &Vec<Header>, key: &str) -> (value: Option<String>)
    ensures
        value is Some <==> first_value(header_views(headers@), key@) is Some,
        value matches Some(v) ==> first_value(header_views(headers@), key@) == Some(v@),
{
    let ghost views = header_views(headers@);
    let mut i: usize = 0;
    while i < headers.len()
        invariant
            views == header_views(headers@),
            i <= headers.len(),
            first_value(views, key@) == first_value_from(views, key@, i as int),
        decreases headers.len() - i,
    {
        assert(views[i as int] == headers@[i as int]@);
        if is_same_name(headers[i].key.as_str(), key) {
            return Some(headers[i].value.clone());
        }
        i += 1;
    }
    None
}

} // verus!
