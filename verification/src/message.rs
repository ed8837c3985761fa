//! The descriptor of one message, as the retention rule and the pipeline see
//! it, and how it is resolved from the message the store hands out.

use vstd::prelude::*;
use crate::header::{
    dateparse, first_value, get_first_value, header_views, parse_headers, parse_mail,
    spec_dateparse, spec_parse_headers, spec_parse_mail, Header,
};

verus! {

/// Why a message could not be resolved.
#[derive(Clone, Copy, Debug, PartialEq, Eq, Structural)]
pub enum ResolveError {
    /// The store could not hand the message out.
    Unreadable,
    /// The message has no `Date` header that can be read as a date.
    BrokenDate,
    /// The message as a whole cannot be parsed.
    Unparseable,
}

/// One message as the store hands it out, with its content read.
#[derive(Debug)]
pub struct Entry {
    /// The name under which the store knows the message.
    pub id: String,
    /// Where the store keeps the message.
    pub path: String,
    /// The store's "seen" flag.
    pub seen: bool,
    /// The store's "flagged" flag.
    pub flagged: bool,
    /// The raw message.
    pub data: Vec<u8>,
}

/// The mathematical content of an [`Entry`].
pub ghost struct EntryView {
    pub id: Seq<char>,
    pub path: Seq<char>,
    pub seen: bool,
    pub flagged: bool,
    pub data: Seq<u8>,
}

impl View for Entry {
    type V = EntryView;

    open spec fn view(&self) -> EntryView {
        EntryView {
            id: self.id@,
            path: self.path@,
            seen: self.seen,
            flagged: self.flagged,
            data: self.data@,
        }
    }
}

/// What is known of one message once it has been resolved.
#[derive(Debug)]
pub struct MailInfo {
    /// The `Subject` header, empty if the message has none.
    pub subject: String,
    /// The text of the `Date` header, empty if the message has none.
    pub date: String,
    /// The message's date in seconds since the epoch.
    pub date_resolved: i64,
    /// The name under which the store deletes the message.
    pub id: String,
    /// Where the raw message can be read again.
    pub path: String,
    /// The store's "seen" flag.
    pub seen: bool,
    /// The store's "flagged" flag.
    pub flagged: bool,
}

/// The mathematical content of a [`MailInfo`].
pub ghost struct MailInfoView {
    pub subject: Seq<char>,
    pub date: Seq<char>,
    pub date_resolved: int,
    pub id: Seq<char>,
    pub path: Seq<char>,
    pub seen: bool,
    pub flagged: bool,
}

impl View for MailInfo {
    type V = MailInfoView;

    open spec fn view(&self) -> MailInfoView {
        MailInfoView {
            subject: self.subject@,
            date: self.date@,
            date_resolved: self.date_resolved as int,
            id: self.id@,
            path: self.path@,
            seen: self.seen,
            flagged: self.flagged,
        }
    }
}

/// `String::push_str` appends `other` to the end of `s`.
pub assume_specification[ String::push_str ](s: &mut String, other: &str)
    ensures
        final(s)@ == old(s)@ + other@,
;

/// The value of a header that may be missing: empty if it is.
pub open spec fn or_empty(value: Option<Seq<char>>) -> Seq<char> {
    match value {
        Some(v) => v,
        None => Seq::empty(),
    }
}

/// The descriptor of `entry`, given the date that was read out of it and the
/// headers of the parsed message.
pub open spec fn described(
    entry: EntryView,
    date_resolved: i64,
    headers: Seq<(Seq<char>, Seq<char>)>,
) -> MailInfoView {
    MailInfoView {
        subject: or_empty(first_value(headers, "Subject"@)),
        date: or_empty(first_value(headers, "Date"@)),
        date_resolved: date_resolved as int,
        id: entry.id,
        path: entry.path,
        seen: entry.seen,
        flagged: entry.flagged,
    }
}

/// The date of a message: what `mailparse::dateparse` makes of the first
/// `Date` header that `mailparse::parse_headers` finds. There is none where
/// the headers cannot be parsed, where no header is named `Date`, or where
/// its value cannot be read as a date.
pub open spec fn date_of(data: Seq<u8>) -> Option<i64> {
    match spec_parse_headers(data) {
        None => None,
        Some(headers) => match first_value(headers, "Date"@) {
            None => None,
            Some(text) => spec_dateparse(text),
        },
    }
}

/// The outcome of resolving `entry`: a message without a date is refused
/// first, then one that cannot be parsed as a whole.
pub open spec fn resolved(entry: EntryView) -> Result<MailInfoView, ResolveError> {
    match date_of(entry.data) {
        None => Err(ResolveError::BrokenDate),
        Some(date_resolved) => match spec_parse_mail(entry.data) {
            None => Err(ResolveError::Unparseable),
            Some(headers) => Ok(described(entry, date_resolved, headers)),
        },
    }
}

/// The value of a header that may be missing.
fn unwrap_or_empty(value: Option<String>) -> (text: String)
    ensures
        text@ == or_empty(
            match value {
                Some(v) => Some(v@),
                None => None,
            },
        ),
{
    match value {
        Some(v) => v,
        None => String::new(),
    }
}

/// Reads the date out of the headers at the start of `data`.
fn resolve_date(data: &[u8]) -> (date: Option<i64>)
    ensures
        date == date_of(data@),
{
    match parse_headers(data) {
        Err(_) => None,
        Ok(headers) => match get_first_value(&headers, "Date") {
            None => None,
            Some(text) => match dateparse(text.as_str()) {
                Err(_) => None,
                Ok(seconds) => Some(seconds),
            },
        },
    }
}

impl MailInfo {
    /// Describes `entry`, whose date is `date_resolved` and whose parsed
    /// headers are `headers`: the subject and the text of the date are the
    /// values of the first `Subject` and `Date` headers, each empty if the
    /// message has none; the rest is taken from `entry`.
    pub fn from_parts(entry: &Entry, date_resolved: i64, headers: &Vec<Header>) -> (mail: MailInfo)
        ensures
            mail@ == described(entry@, date_resolved, header_views(headers@)),
    {
        let date = unwrap_or_empty(get_first_value(headers, "Date"));
        let subject = unwrap_or_empty(get_first_value(headers, "Subject"));
        MailInfo {
            subject,
            date,
            date_resolved,
            id: entry.id.clone(),
            path: entry.path.clone(),
            seen: entry.seen,
            flagged: entry.flagged,
        }
    }

    /// Resolves `entry`. The message must have a date: its headers must
    /// parse, one of them must be named `Date`, and its value must read as a
    /// date; else the error is [`ResolveError::BrokenDate`]. The message must
    /// then parse as a whole; else the error is
    /// [`ResolveError::Unparseable`].
    pub fn new(entry: &Entry) -> (found: Result<MailInfo, ResolveError>)
        ensures
            found matches Ok(mail) ==> resolved(entry@) == Ok::<MailInfoView, ResolveError>(mail@),
            found matches Err(e) ==> resolved(entry@) == Err::<MailInfoView, ResolveError>(e),
    {
        let date_resolved = match resolve_date(entry.data.as_slice()) {
            None => { return Err(ResolveError::BrokenDate); },
            Some(seconds) => seconds,
        };
        match parse_mail(entry.data.as_slice()) {
            Err(_) => Err(ResolveError::Unparseable),
            Ok(headers) => Ok(MailInfo::from_parts(entry, date_resolved, &headers)),
        }
    }

    /// The text by which a message is named in reports: its id, the text of
    /// its date and its subject, with a slash between them.
    pub open spec fn spec_label(mail: MailInfoView) -> Seq<char> {
        mail.id + "/"@ + mail.date + "/"@ + mail.subject
    }

    /// The text by which the message is named in reports.
    pub fn label(&self) -> (text: String)
        ensures
            text@ == Self::spec_label(self@),
    {
        let mut text = self.id.clone();
        text.push_str("/");
        text.push_str(self.date.as_str());
        text.push_str("/");
        text.push_str(self.subject.as_str());
        text
    }
}

} // verus!
