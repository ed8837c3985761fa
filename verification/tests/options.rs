use maildir_archiver::criteria::Criteria;
use maildir_archiver::options::{is_gzip_name, Destination, Opts, OptsError};

fn opts_with(archive: Option<&str>, remove: bool) -> Opts {
    Opts {
        maildir: String::from("/home/user/Maildir"),
        archive: archive.map(String::from),
        remove,
        confirm: false,
        new: false,
        age: 30,
    }
}

#[test]
fn check_accepts_an_archive_alone() {
    assert_eq!(opts_with(Some("old.mbox"), false).check(true), Ok(()));
}

#[test]
fn check_accepts_removal_alone() {
    assert_eq!(opts_with(None, true).check(true), Ok(()));
}

#[test]
fn check_refuses_archive_and_removal_together() {
    assert_eq!(opts_with(Some("old.mbox"), true).check(true), Err(OptsError::ArchiveOrRemove));
}

#[test]
fn check_refuses_neither_archive_nor_removal() {
    assert_eq!(opts_with(None, false).check(true), Err(OptsError::ArchiveOrRemove));
}

#[test]
fn check_reports_a_missing_maildir_first() {
    assert_eq!(opts_with(Some("old.mbox"), false).check(false), Err(OptsError::NoMaildir));
    assert_eq!(opts_with(Some("old.mbox"), true).check(false), Err(OptsError::NoMaildir));
    assert_eq!(opts_with(None, false).check(false), Err(OptsError::NoMaildir));
}

#[test]
fn destination_of_removal_discards() {
    assert!(matches!(opts_with(None, true).destination(), Destination::Discard));
}

#[test]
fn destination_of_removal_discards_even_with_an_archive() {
    assert!(matches!(opts_with(Some("old.mbox.gz"), true).destination(), Destination::Discard));
}

#[test]
fn destination_of_a_plain_archive_appends_uncompressed() {
    match opts_with(Some("/var/mail/old.mbox"), false).destination() {
        Destination::Append { path, gzip } => {
            assert_eq!(path, "/var/mail/old.mbox");
            assert!(!gzip);
        }
        Destination::Discard => panic!("an archive was asked for"),
    }
}

#[test]
fn destination_of_a_gz_archive_appends_compressed() {
    match opts_with(Some("/var/mail/old.mbox.gz"), false).destination() {
        Destination::Append { path, gzip } => {
            assert_eq!(path, "/var/mail/old.mbox.gz");
            assert!(gzip);
        }
        Destination::Discard => panic!("an archive was asked for"),
    }
}

#[test]
fn gzip_names_end_in_dot_gz() {
    assert!(is_gzip_name("a.gz"));
    assert!(is_gzip_name("archive.mbox.gz"));
    assert!(is_gzip_name("dir/archive.gz"));
    assert!(is_gzip_name("..gz"));
    assert!(is_gzip_name("p\u{e9}.gz"));
}

#[test]
fn other_names_are_not_gzip_names() {
    assert!(!is_gzip_name(""));
    assert!(!is_gzip_name("gz"));
    assert!(!is_gzip_name(".gz"));
    assert!(!is_gzip_name("dir/.gz"));
    assert!(!is_gzip_name("archive.GZ"));
    assert!(!is_gzip_name("archive.gzip"));
    assert!(!is_gzip_name("archive.gz.old"));
    assert!(!is_gzip_name("archivegz"));
    assert!(!is_gzip_name("archive.mbox"));
}

#[test]
fn seen_is_required_unless_unread_messages_are_visited() {
    let mut opts = opts_with(None, true);
    assert!(opts.must_seen());
    opts.new = true;
    assert!(!opts.must_seen());
}

#[test]
fn criteria_follow_from_age_and_unread_option() {
    let mut opts = opts_with(None, true);
    opts.age = 45;
    assert_eq!(
        opts.criteria_at(10_000_000),
        Some(Criteria { before: 10_000_000 - 45 * 86_400, must_seen: true })
    );
    opts.new = true;
    assert_eq!(
        opts.criteria_at(10_000_000),
        Some(Criteria { before: 6_112_000, must_seen: false })
    );
    opts.age = usize::MAX;
    assert_eq!(opts.criteria_at(10_000_000), None);
}
