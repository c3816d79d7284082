//! The freshness probe: was the newest file of the backup directory written
//! today?

use crate::calendar::CalendarDate;
use vstd::prelude::*;

verus! {

/// When a file was last modified.
#[derive(Clone, Copy, Debug, PartialEq, Eq, Structural)]
pub struct Modified {
    /// Nanoseconds since the Unix epoch, negative before it.
    pub instant: i128,
    /// The local calendar day on which that instant fell.
    pub local_date: CalendarDate,
}

/// One entry of a directory listing.
#[derive(Clone, Copy, Debug, PartialEq, Eq, Structural)]
pub struct FileRecord {
    /// Whether the entry is a regular file.
    pub is_file: bool,
    /// Its modification time, where the file system gave one.
    pub modified: Option<Modified>,
}

/// The verdict of a freshness probe.
#[derive(Clone, Copy, Debug, PartialEq, Eq, Structural)]
pub enum Freshness {
    /// The newest file was modified on the current day.
    FreshToday,
    /// The newest file is older than the current day.
    Stale,
}

/// Why a freshness probe gave no verdict.
#[derive(Clone, Copy, Debug, PartialEq, Eq, Structural)]
pub enum ProbeError {
    /// The directory could not be read or holds no regular file.
    NotFound,
    /// The newest file has no readable modification time.
    Unreadable,
}

/// `a` was modified no later than `b`. An entry without a modification time
/// counts as older than any entry with one.
pub open spec fn no_newer(a: FileRecord, b: FileRecord) -> bool {
    match (a.modified, b.modified) {
        (None, _) => true,
        (Some(_), None) => false,
        (Some(x), Some(y)) => x.instant <= y.instant,
    }
}

/// Among the first `n` entries, entry `i` is the regular file that was
/// modified last; of several modified at the same instant, the one listed
/// last.
pub open spec fn is_newest_within(entries: Seq<FileRecord>, n: int, i: int) -> bool {
    &&& 0 <= i < n <= entries.len()
    &&& entries[i].is_file
    &&& forall|j: int|
        0 <= j < n && entries[j].is_file ==> no_newer(#[trigger] entries[j], entries[i])
    &&& forall|j: int|
        i < j < n && entries[j].is_file ==> !no_newer(entries[i], #[trigger] entries[j])
}

/// Entry `i` is the newest regular file of the whole listing.
pub open spec fn is_newest(entries: Seq<FileRecord>, i: int) -> bool {
    is_newest_within(entries, entries.len() as int, i)
}

/// The listing was read and holds at least one regular file.
pub open spec fn has_regular_file(listing: Option<Vec<FileRecord>>) -> bool {
    listing matches Some(entries) && exists|j: int|
        0 <= j < entries@.len() && (#[trigger] entries@[j]).is_file
}

/// What the newest file says about today's backup.
pub open spec fn verdict_of(newest: FileRecord, today: CalendarDate) -> Result<
    Freshness,
    ProbeError,
> {
    match newest.modified {
        None => Err(ProbeError::Unreadable),
        Some(modified) => if modified.local_date == today {
            Ok(Freshness::FreshToday)
        } else {
            Ok(Freshness::Stale)
        },
    }
}

/// A listing has at most one newest file.
pub proof fn newest_is_unique(entries: Seq<FileRecord>, i: int, j: int)
    requires
        is_newest(entries, i),
        is_newest(entries, j),
    ensures
        i == j,
{
    if i < j {
        assert(no_newer(entries[j], entries[i]));
        assert(!no_newer(entries[i], entries[j]));
        assert(no_newer(entries[i], entries[j]));
    } else if j < i {
        assert(no_newer(entries[i], entries[j]));
        assert(!no_newer(entries[j], entries[i]));
        assert(no_newer(entries[j], entries[i]));
    }
}

fn is_no_newer(a: &FileRecord, b: &FileRecord) -> (r: bool)
    ensures
        r == no_newer(*a, *b),
{
    match a.modified {
        None => true,
        Some(x) => match b.modified {
            None => false,
            Some(y) => x.instant <= y.instant,
        },
    }
}

/// Picks the regular file that was modified last. `listing` is `None`
/// where the directory could not be read.
pub fn get_newer_file_in_directory(listing: &Option<Vec<FileRecord>>) -> (newest: Result<
    usize,
    ProbeError,
>)
    ensures
        newest is Ok <==> has_regular_file(*listing),
        newest matches Ok(i) ==> is_newest(listing->0@, i as int),
        newest matches Err(e) ==> e == ProbeError::NotFound,
{
    let entries = match listing {
        Some(entries) => entries,
        None => {
            return Err(ProbeError::NotFound);
        },
    };
    let mut best: Option<usize> = None;
    let mut i: usize = 0;
    while i < entries.len()
        invariant
            i <= entries.len(),
            best matches Some(b) ==> is_newest_within(entries@, i as int, b as int),
            best is None ==> forall|j: int| 0 <= j < i ==> !(#[trigger] entries@[j]).is_file,
        decreases entries.len() - i,
    {
        if entries[i].is_file {
            let replace = match best {
                None => true,
                Some(b) => is_no_newer(&entries[b], &entries[i]),
            };
            if replace {
                best = Some(i);
            }
        }
        i += 1;
    }
    match best {
        Some(b) => Ok(b),
        None => Err(ProbeError::NotFound),
    }
}

/// The modification time of an entry, where it has one.
pub fn get_file_modification_time(file: &FileRecord) -> (time: Result<Modified, ProbeError>)
    ensures
        time == match file.modified {
            Some(modified) => Ok::<Modified, ProbeError>(modified),
            None => Err(ProbeError::Unreadable),
        },
{
    match file.modified {
        Some(modified) => Ok(modified),
        None => Err(ProbeError::Unreadable),
    }
}

/// Probes the backup directory: fresh exactly when its newest regular file
/// was modified on the day `today`, stale when that file is older.
///
/// No verdict comes out of an unreadable or empty directory, nor of a newest
/// file without a modification time.
pub fn backup_done_today(listing: &Option<Vec<FileRecord>>, today: &CalendarDate) -> (verdict:
    Result<Freshness, ProbeError>)
    ensures
        !has_regular_file(*listing) ==> verdict == Err::<Freshness, ProbeError>(
            ProbeError::NotFound,
        ),
        has_regular_file(*listing) ==> exists|i: int|
            is_newest(listing->0@, i) && verdict == verdict_of(#[trigger] listing->0@[i], *today),
{
    let newest = match get_newer_file_in_directory(listing) {
        Ok(newest) => newest,
        Err(error) => {
            return Err(error);
        },
    };
    let entries = match listing {
        Some(entries) => entries,
        None => {
            return Err(ProbeError::NotFound);
        },
    };
    let modified = match get_file_modification_time(&entries[newest]) {
        Ok(modified) => modified,
        Err(error) => {
            return Err(error);
        },
    };
    if modified.local_date == *today {
        Ok(Freshness::FreshToday)
    } else {
        Ok(Freshness::Stale)
    }
}

} // verus!
