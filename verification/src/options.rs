//! The options of one run, and what follows from them: whether they make
//! sense, where retired messages go, and under which rule the run retires.

use vstd::prelude::*;
use vstd::string::*;
use crate::criteria::{cutoff, Criteria};

verus! {

/// The options of one run.
#[derive(Debug)]
pub struct Opts {
    /// The mail store to search for old messages.
    pub maildir: String,
    /// The file to which retired messages are appended.
    pub archive: Option<String>,
    /// Discard retired messages instead of archiving them.
    pub remove: bool,
    /// Retire for real; without it the run only previews.
    pub confirm: bool,
    /// Visit unread messages too.
    pub new: bool,
    /// The age in days from which a message is old.
    pub age: usize,
}

/// Why a set of options is refused.
#[derive(Clone, Copy, Debug, PartialEq, Eq, Structural)]
pub enum OptsError {
    /// The mail store is not an existing directory.
    NoMaildir,
    /// An archive and removal were both asked for, or neither.
    ArchiveOrRemove,
}

/// Where retired messages go.
#[derive(Debug)]
pub enum Destination {
    /// Nowhere: whatever is written is dropped.
    Discard,
    /// To the end of the file at `path`, which is created if it is missing
    /// and never truncated; through a gzip encoder if `gzip` is set.
    Append { path: String, gzip: bool },
}

/// The mathematical content of a [`Destination`].
pub ghost enum DestinationView {
    Discard,
    Append { path: Seq<char>, gzip: bool },
}

impl View for Destination {
    type V = DestinationView;

    open spec fn view(&self) -> DestinationView {
        match self {
            Destination::Discard => DestinationView::Discard,
            Destination::Append { path, gzip } => DestinationView::Append {
                path: path@,
                gzip: *gzip,
            },
        }
    }
}

/// Whether `path` names a gzip file: it ends in `.gz`, and its last component
/// is more than that bare suffix.
pub open spec fn names_gzip(path: Seq<char>) -> bool {
    let n = path.len() as int;
    &&& n >= 4
    &&& path[n - 4] != '/'
    &&& path[n - 3] == '.'
    &&& path[n - 2] == 'g'
    &&& path[n - 1] == 'z'
}

/// Decides whether what is written to `path` is to be compressed.
pub fn is_gzip_name(path: &str) -> (gzip: bool)
    ensures
        gzip == names_gzip(path@),
{
    let n = path.unicode_len();
    if n < 4 {
        return false;
    }
    path.get_char(n - 4) != '/' && path.get_char(n - 3) == '.' && path.get_char(n - 2) == 'g'
        && path.get_char(n - 1) == 'z'
}

impl Opts {
    /// Exactly one of an archive and removal is asked for.
    pub open spec fn one_destination(&self) -> bool {
        self.archive.is_some() != self.remove
    }

    /// Checks the options before anything is touched. `maildir_is_dir` tells
    /// whether the mail store is an existing directory. A missing store is
    /// reported first.
    pub fn check(&self, maildir_is_dir: bool) -> (checked: Result<(), OptsError>)
        ensures
            checked is Ok <==> maildir_is_dir && self.one_destination(),
            checked == Err::<(), OptsError>(OptsError::NoMaildir) <==> !maildir_is_dir,
            checked == Err::<(), OptsError>(OptsError::ArchiveOrRemove) <==> maildir_is_dir
                && !self.one_destination(),
    {
        if !maildir_is_dir {
            return Err(OptsError::NoMaildir);
        }
        if self.archive.is_some() == self.remove {
            return Err(OptsError::ArchiveOrRemove);
        }
        Ok(())
    }

    /// Where the run sends retired messages: nowhere if removal is asked for,
    /// else to the archive, compressed if its name says so.
    pub fn destination(&self) -> (destination: Destination)
        requires
            self.remove || self.archive.is_some(),
        ensures
            self.remove ==> destination@ == DestinationView::Discard,
            !self.remove ==> destination@ == (DestinationView::Append {
                path: self.archive.unwrap()@,
                gzip: names_gzip(self.archive.unwrap()@),
            }),
    {
        if self.remove {
            Destination::Discard
        } else {
            match &self.archive {
                Some(filename) => {
                    let gzip = is_gzip_name(filename.as_str());
                    Destination::Append { path: filename.clone(), gzip }
                },
                None => unreached(),
            }
        }
    }

    /// Whether a message must have been seen to be retired: it must, unless
    /// the run visits unread messages too, which lifts the demand for every
    /// message of the run.
    pub fn must_seen(&self) -> (must_seen: bool)
        ensures
            must_seen == !self.new,
    {
        !self.new
    }

    /// The retention rule of a run that starts at `now`, in seconds since the
    /// epoch: the age is that of the options, and a message must have been
    /// seen unless the run visits unread messages too.
    pub fn criteria_at(&self, now: u64) -> (criteria: Option<Criteria>)
        ensures
            criteria is Some <==> i64::MIN <= cutoff(now as int, self.age as nat) <= i64::MAX,
            criteria matches Some(c) ==> c.before == cutoff(now as int, self.age as nat)
                && c.must_seen == !self.new,
    {
        Criteria::at(now, self.age, self.must_seen())
    }
}

} // verus!
