use maildir_archiver::header::{get_first_value, is_same_name, Header};
use maildir_archiver::message::{Entry, MailInfo, ResolveError};

fn entry_holding(data: &[u8]) -> Entry {
    Entry {
        id: String::from("1463868505.38518452d49213cb409aa1db32f53184"),
        path: String::from("/mail/cur/1463868505.38518452d49213cb409aa1db32f53184:2,S"),
        seen: true,
        flagged: false,
        data: data.to_vec(),
    }
}

fn header_named(key: &str, value: &str) -> Header {
    Header { key: String::from(key), value: String::from(value) }
}

#[test]
fn names_differing_in_ascii_case_are_the_same() {
    assert!(is_same_name("Date", "date"));
    assert!(is_same_name("DATE", "dAtE"));
    assert!(is_same_name("X-Az09", "x-aZ09"));
    assert!(is_same_name("", ""));
}

#[test]
fn other_names_differ() {
    assert!(!is_same_name("Date", "Dated"));
    assert!(!is_same_name("Date", "Dat"));
    assert!(!is_same_name("Date", "Data"));
    assert!(!is_same_name("Date", ""));
    // '@' and '`' lie just outside the letters, 32 apart like 'A' and 'a'.
    assert!(!is_same_name("@", "`"));
    assert!(!is_same_name("[", "{"));
    // Case is folded for ASCII letters only.
    assert!(!is_same_name("\u{c9}", "\u{e9}"));
    assert!(is_same_name("\u{e9}A", "\u{e9}a"));
}

#[test]
fn first_value_is_that_of_the_first_header_of_the_name() {
    let headers = vec![
        header_named("Subject", "first"),
        header_named("Date", "today"),
        header_named("subject", "second"),
    ];
    assert_eq!(get_first_value(&headers, "SUBJECT"), Some(String::from("first")));
    assert_eq!(get_first_value(&headers, "date"), Some(String::from("today")));
    assert_eq!(get_first_value(&headers, "From"), None);
    assert_eq!(get_first_value(&Vec::new(), "Subject"), None);
}

#[test]
fn from_parts_takes_subject_and_date_from_the_headers() {
    let entry = entry_holding(b"");
    let headers = vec![
        header_named("date", "Sun, 02 Oct 2016 07:06:22 -0700 (PDT)"),
        header_named("SUBJECT", "Hello"),
        header_named("Subject", "Ignored"),
    ];
    let mail = MailInfo::from_parts(&entry, 1_475_417_182, &headers);
    assert_eq!(mail.subject, "Hello");
    assert_eq!(mail.date, "Sun, 02 Oct 2016 07:06:22 -0700 (PDT)");
    assert_eq!(mail.date_resolved, 1_475_417_182);
    assert_eq!(mail.id, entry.id);
    assert_eq!(mail.path, entry.path);
    assert!(mail.seen);
    assert!(!mail.flagged);
}

#[test]
fn from_parts_leaves_missing_headers_empty() {
    let mut entry = entry_holding(b"");
    entry.seen = false;
    entry.flagged = true;
    let mail = MailInfo::from_parts(&entry, -7, &Vec::new());
    assert_eq!(mail.subject, "");
    assert_eq!(mail.date, "");
    assert_eq!(mail.date_resolved, -7);
    assert!(!mail.seen);
    assert!(mail.flagged);
}

#[test]
fn new_resolves_a_plain_message() {
    let entry = entry_holding(
        b"Subject: This is a test email\n\
          Date: Sun, 02 Oct 2016 07:06:22 -0700 (PDT)\n\
          \n\
          Body\n",
    );
    let mail = MailInfo::new(&entry).expect("the message resolves");
    assert_eq!(mail.subject, "This is a test email");
    assert_eq!(mail.date, "Sun, 02 Oct 2016 07:06:22 -0700 (PDT)");
    assert_eq!(mail.date_resolved, 1_475_417_182);
    assert_eq!(mail.id, "1463868505.38518452d49213cb409aa1db32f53184");
    assert_eq!(mail.path, "/mail/cur/1463868505.38518452d49213cb409aa1db32f53184:2,S");
    assert!(mail.seen);
    assert!(!mail.flagged);
}

#[test]
fn new_decodes_and_unfolds_header_values() {
    let entry = entry_holding(
        b"DATE: Thu, 01 Jan 1970 00:01:40 +0000\n\
          subject: =?iso-8859-1?Q?=A1Hola,_se=F1or!?=\n   and more\n\
          \n",
    );
    let mail = MailInfo::new(&entry).expect("the message resolves");
    assert_eq!(mail.date_resolved, 100);
    assert_eq!(mail.date, "Thu, 01 Jan 1970 00:01:40 +0000");
    assert_eq!(mail.subject, "\u{a1}Hola, se\u{f1}or! and more");
}

#[test]
fn new_takes_the_first_date_header() {
    let entry = entry_holding(
        b"Date: Thu, 01 Jan 1970 00:00:10 +0000\n\
          Date: Thu, 01 Jan 1970 00:00:20 +0000\n\
          \n",
    );
    let mail = MailInfo::new(&entry).expect("the message resolves");
    assert_eq!(mail.date_resolved, 10);
    assert_eq!(mail.date, "Thu, 01 Jan 1970 00:00:10 +0000");
    assert_eq!(mail.subject, "");
}

#[test]
fn new_refuses_a_message_without_date() {
    let entry = entry_holding(b"Subject: No date here\n\nBody\n");
    assert_eq!(MailInfo::new(&entry).err(), Some(ResolveError::BrokenDate));
}

#[test]
fn new_refuses_a_date_that_cannot_be_read() {
    let entry = entry_holding(b"Subject: Odd\nDate: 02 Smarch 2016 07:06:22\n\nBody\n");
    assert_eq!(MailInfo::new(&entry).err(), Some(ResolveError::BrokenDate));
}

#[test]
fn new_refuses_headers_that_cannot_be_parsed() {
    let entry = entry_holding(b" Subject: starts with a space\nDate: Thu, 01 Jan 1970 00:00:10 +0000\n\n");
    assert_eq!(MailInfo::new(&entry).err(), Some(ResolveError::BrokenDate));
}

#[test]
fn new_refuses_a_message_that_cannot_be_parsed_as_a_whole() {
    let entry = entry_holding(
        b"Date: Thu, 01 Jan 1970 00:00:10 +0000\n\
          Content-Type: multipart/mixed; boundary=frontier\n\
          \n\
          --frontier\n\
          \x20broken: this part's header starts with a space\n\
          \n\
          text\n\
          --frontier--\n",
    );
    assert_eq!(MailInfo::new(&entry).err(), Some(ResolveError::Unparseable));
}

#[test]
fn label_joins_id_date_and_subject() {
    let entry = entry_holding(b"Subject: Hi\nDate: Thu, 01 Jan 1970 00:00:10 +0000\n\n");
    let mail = MailInfo::new(&entry).expect("the message resolves");
    assert_eq!(
        mail.label(),
        "1463868505.38518452d49213cb409aa1db32f53184/Thu, 01 Jan 1970 00:00:10 +0000/Hi"
    );
}

#[test]
fn label_of_a_message_without_headers() {
    let mail = MailInfo::from_parts(&entry_holding(b""), 0, &Vec::new());
    assert_eq!(mail.label(), "1463868505.38518452d49213cb409aa1db32f53184//");
}
