//! The ZIP container: the clamped timestamp of an entry, the calendar
//! reading of a timestamp, and the writer and reader of the `zip` crate.

use vstd::prelude::*;

verus! {

/// Permissions of an entry that names none.
pub const DEFAULT_PERMISSIONS: u32 = 0o644;

/// First year that a ZIP timestamp can hold.
pub const DOS_FIRST_YEAR: u16 = 1980;

/// Last year that a ZIP timestamp can hold.
pub const DOS_LAST_YEAR: u16 = 2107;

/// A date and time as a ZIP entry holds it.
#[derive(Clone, Copy, Debug, PartialEq, Eq, Structural)]
pub struct DosDateTime {
    pub year: u16,
    pub month: u8,
    pub day: u8,
    pub hour: u8,
    pub minute: u8,
    pub second: u8,
}

impl DosDateTime {
    /// Whether the fields are within the bounds of a ZIP timestamp.
    pub open spec fn valid(&self) -> bool {
        &&& DOS_FIRST_YEAR <= self.year <= DOS_LAST_YEAR
        &&& 1 <= self.month <= 12
        &&& 1 <= self.day <= 31
        &&& self.hour <= 23
        &&& self.minute <= 59
        &&& self.second <= 60
    }

    /// Whether the fields name a moment of the calendar.
    pub open spec fn on_calendar(&self) -> bool {
        &&& DOS_FIRST_YEAR <= self.year <= DOS_LAST_YEAR
        &&& 1 <= self.month <= 12
        &&& 1 <= self.day <= days_in_month(self.year as int, self.month as int)
        &&& self.hour <= 23
        &&& self.minute <= 59
        &&& self.second <= 59
    }
}

/// The first moment that a ZIP timestamp can hold.
pub open spec fn dos_epoch() -> DosDateTime {
    DosDateTime { year: 1980, month: 1, day: 1, hour: 0, minute: 0, second: 0 }
}

/// The timestamp that an entry gets for a time in seconds since the Unix
/// epoch. Months count as 31 days and years as 365, so the date is not the
/// date of the calendar. A time whose year would pass the last year of the
/// format gets the first moment of the format.
pub open spec fn dos_time(t: u64) -> DosDateTime {
    if t / 31_536_000 + 1980 > DOS_LAST_YEAR {
        dos_epoch()
    } else {
        DosDateTime {
            year: (t / 31_536_000 + 1980) as u16,
            month: ((t / 2_678_400) % 12 + 1) as u8,
            day: ((t / 86_400) % 31 + 1) as u8,
            hour: ((t / 3_600) % 24) as u8,
            minute: ((t / 60) % 60) as u8,
            second: (t % 60) as u8,
        }
    }
}

/// The timestamp of every time is within the bounds of the format.
pub proof fn lemma_dos_time_is_valid(t: u64)
    ensures
        dos_time(t).valid(),
{
}

/// Computes the timestamp of an entry.
pub fn zip_timestamp(t: u64) -> (stamp: DosDateTime)
    ensures
        stamp == dos_time(t),
        stamp.valid(),
{
    let years = t / 31_536_000 + 1980;
    if years > DOS_LAST_YEAR as u64 {
        return DosDateTime { year: 1980, month: 1, day: 1, hour: 0, minute: 0, second: 0 };
    }
    DosDateTime {
        year: years as u16,
        month: ((t / 2_678_400) % 12 + 1) as u8,
        day: ((t / 86_400) % 31 + 1) as u8,
        hour: ((t / 3_600) % 24) as u8,
        minute: ((t / 60) % 60) as u8,
        second: (t % 60) as u8,
    }
}

/// Whether `year` has a 29th of February.
pub open spec fn is_leap_year(year: int) -> bool {
    year % 4 == 0 && (year % 100 != 0 || year % 400 == 0)
}

/// The number of days of a month.
pub open spec fn days_in_month(year: int, month: int) -> int {
    if month == 2 {
        if is_leap_year(year) {
            29
        } else {
            28
        }
    } else if month == 4 || month == 6 || month == 9 || month == 11 {
        30
    } else {
        31
    }
}

/// The number of days from the Unix epoch to the first day of `year`.
pub open spec fn days_before_year(year: int) -> int
    decreases year,
{
    if year <= 1970 {
        0
    } else {
        days_before_year(year - 1) + if is_leap_year(year - 1) {
            366int
        } else {
            365int
        }
    }
}

/// The number of days from the first day of `year` to the first day of
/// `month`.
pub open spec fn days_before_month(year: int, month: int) -> int
    decreases month,
{
    if month <= 1 {
        0
    } else {
        days_before_month(year, month - 1) + days_in_month(year, month - 1)
    }
}

/// The seconds from the Unix epoch to a moment of the calendar, read as
/// universal time.
pub open spec fn calendar_seconds(stamp: DosDateTime) -> int {
    (days_before_year(stamp.year as int) + days_before_month(
        stamp.year as int,
        stamp.month as int,
    ) + (stamp.day - 1)) * 86_400 + stamp.hour * 3_600 + stamp.minute * 60 + stamp.second
}

/// The time of an entry that was read back: the seconds of its timestamp
/// where that names a moment of the calendar, and `now` where it does not.
pub open spec fn restored_time(stamp: DosDateTime, now: u64) -> u64 {
    if stamp.on_calendar() {
        calendar_seconds(stamp) as u64
    } else {
        now
    }
}

proof fn lemma_days_before_year_bound(year: int)
    requires
        1970 <= year,
    ensures
        0 <= days_before_year(year) <= (year - 1970) * 366,
    decreases year,
{
    if year > 1970 {
        lemma_days_before_year_bound(year - 1);
    }
}

proof fn lemma_days_before_month_bound(year: int, month: int)
    requires
        1 <= month,
    ensures
        0 <= days_before_month(year, month) <= (month - 1) * 31,
    decreases month,
{
    if month > 1 {
        lemma_days_before_month_bound(year, month - 1);
    }
}

fn leap_year(year: u64) -> (leap: bool)
    ensures
        leap == is_leap_year(year as int),
{
    year % 4 == 0 && (year % 100 != 0 || year % 400 == 0)
}

fn month_length(year: u64, month: u64) -> (days: u64)
    ensures
        days == days_in_month(year as int, month as int),
{
    if month == 2 {
        if leap_year(year) {
            29
        } else {
            28
        }
    } else if month == 4 || month == 6 || month == 9 || month == 11 {
        30
    } else {
        31
    }
}

/// Reads a timestamp as universal time.
pub fn unix_time(stamp: DosDateTime, now: u64) -> (t: u64)
    ensures
        t == restored_time(stamp, now),
        stamp.on_calendar() ==> t == calendar_seconds(stamp),
{
    let year = stamp.year as u64;
    let month = stamp.month as u64;
    if year < 1980 || year > 2107 || month < 1 || month > 12 || stamp.day < 1 || stamp.hour > 23
        || stamp.minute > 59 || stamp.second > 59 {
        return now;
    }
    if stamp.day as u64 > month_length(year, month) {
        return now;
    }
    let mut days: u64 = 0;
    let mut y: u64 = 1970;
    while y < year
        invariant
            1970 <= y <= year <= 2107,
            days == days_before_year(y as int),
        decreases year - y,
    {
        proof {
            lemma_days_before_year_bound(y as int);
        }
        days = days + if leap_year(y) {
            366
        } else {
            365
        };
        y += 1;
    }
    let mut month_days: u64 = 0;
    let mut m: u64 = 1;
    while m < month
        invariant
            1 <= m <= month <= 12,
            month_days == days_before_month(year as int, m as int),
        decreases month - m,
    {
        proof {
            lemma_days_before_month_bound(year as int, m as int);
        }
        month_days = month_days + month_length(year, m);
        m += 1;
    }
    proof {
        lemma_days_before_year_bound(year as int);
        lemma_days_before_month_bound(year as int, month as int);
    }
    (days + month_days + (stamp.day as u64 - 1)) * 86_400 + stamp.hour as u64 * 3_600
        + stamp.minute as u64 * 60 + stamp.second as u64
}

/// An entry as the ZIP writer takes it.
pub struct ZipEntrySpec {
    pub name: Seq<char>,
    pub data: Seq<u8>,
    pub deflated: bool,
    pub permissions: u32,
    pub modified: DosDateTime,
}

/// An entry as the ZIP reader gives it.
pub struct ZipMemberView {
    pub name: Seq<char>,
    pub data: Seq<u8>,
    pub mode: Option<u32>,
    pub modified: DosDateTime,
}

/// An entry as the ZIP reader gives it.
pub struct ZipMember {
    pub name: String,
    pub data: Vec<u8>,
    pub mode: Option<u32>,
    pub modified: DosDateTime,
}

impl View for ZipMember {
    type V = ZipMemberView;

    open spec fn view(&self) -> ZipMemberView {
        ZipMemberView {
            name: self.name@,
            data: self.data@,
            mode: self.mode,
            modified: self.modified,
        }
    }
}

/// A ZIP archive that is being written into memory: a `zip::ZipWriter`
/// over a cursor on a vector. The writer is bounded by traits of
/// `std::io`, so it is held behind this struct and seen through
/// `zip_pending` alone.
#[verifier::external_body]
pub struct ZipPacker {
    writer: zip::ZipWriter<std::io::Cursor<Vec<u8>>>,
}

/// `zip::ZipArchive`, carried through as it is; what it was opened on is
/// named by `zip_source`.
#[verifier::external_type_specification]
#[verifier::external_body]
#[verifier::reject_recursive_types(R)]
pub struct ExZipArchive<R>(zip::ZipArchive<R>);

/// `std::io::Cursor`, which the archive reads through; nothing is stated
/// of it.
#[verifier::external_type_specification]
#[verifier::external_body]
#[verifier::reject_recursive_types(T)]
pub struct ExCursor<T>(std::io::Cursor<T>);

/// The entries that a writer has taken, in order.
pub uninterp spec fn zip_pending(packer: ZipPacker) -> Seq<ZipEntrySpec>;

/// Whether the writer of the `zip` crate, holding `pending`, takes `entry`.
pub uninterp spec fn zip_accepts(pending: Seq<ZipEntrySpec>, entry: ZipEntrySpec) -> bool;

/// The archive that the writer of the `zip` crate gives for `entries`, or
/// `None` where it fails to finish.
pub uninterp spec fn zip_image(entries: Seq<ZipEntrySpec>) -> Option<Seq<u8>>;

/// The bytes that an archive was opened on.
pub uninterp spec fn zip_source(archive: zip::ZipArchive<std::io::Cursor<Vec<u8>>>) -> Seq<u8>;

/// The number of entries that the reader of the `zip` crate finds in
/// `data`, or `None` where it does not open `data`.
pub uninterp spec fn zip_entry_count(data: Seq<u8>) -> Option<nat>;

/// The entry at `index` that the reader of the `zip` crate gives for
/// `data`, or `None` where it fails to read it.
pub uninterp spec fn zip_entry(data: Seq<u8>, index: nat) -> Option<ZipMemberView>;

/// Whether the writer takes every entry of `entries` in turn.
pub open spec fn zip_accepts_all(entries: Seq<ZipEntrySpec>) -> bool {
    forall|i: int| 0 <= i < entries.len() ==> zip_accepts(#[trigger] entries.take(i), entries[i])
}

/// The archive of `entries`, or `None` where the writer fails.
pub open spec fn zip_packed(entries: Seq<ZipEntrySpec>) -> Option<Seq<u8>> {
    if zip_accepts_all(entries) {
        zip_image(entries)
    } else {
        None
    }
}

/// Whether the reader gives every entry below `count`.
pub open spec fn zip_reads_all(data: Seq<u8>, count: nat) -> bool {
    forall|i: nat| i < count ==> (#[trigger] zip_entry(data, i)) is Some
}

/// The entries of `data` in order, or `None` where the reader fails.
pub open spec fn zip_unpacked(data: Seq<u8>) -> Option<Seq<ZipMemberView>> {
    match zip_entry_count(data) {
        None => None,
        Some(count) => if zip_reads_all(data, count) {
            Some(Seq::new(count, |i: int| zip_entry(data, i as nat)->Some_0))
        } else {
            None
        },
    }
}

/// `ZipWriter::new` over an empty cursor: a writer that has taken nothing.
#[verifier::external_body]
pub(crate) fn zip_packer_new() -> (packer: ZipPacker)
    ensures
        zip_pending(packer) == Seq::<ZipEntrySpec>::empty(),
{
    ZipPacker { writer: zip::ZipWriter::new(std::io::Cursor::new(Vec::new())) }
}

/// `ZipWriter::start_file` with the method, the permissions and the
/// timestamp as options, then `write_all` of the data. Whether the writer
/// takes the entry is a function of what it holds and of the entry; where it
/// does, the entry is the last that it holds. `DateTime::from_date_and_time`
/// takes every timestamp within the bounds of the format.
#[verifier::external_body]
pub(crate) fn zip_packer_add(
    packer: &mut ZipPacker,
    name: &str,
    data: &[u8],
    deflated: bool,
    permissions: u32,
    modified: DosDateTime,
) -> (r: Result<(), std::io::Error>)
    requires
        modified.valid(),
    ensures
        r is Ok <==> zip_accepts(
            zip_pending(*old(packer)),
            ZipEntrySpec { name: name@, data: data@, deflated, permissions, modified },
        ),
        r is Ok ==> zip_pending(*final(packer)) == zip_pending(*old(packer)).push(
            ZipEntrySpec { name: name@, data: data@, deflated, permissions, modified },
        ),
{
    let time = zip::DateTime::from_date_and_time(
        modified.year, modified.month, modified.day, modified.hour, modified.minute, modified.second,
    ).unwrap_or_default();
    let method = if deflated { zip::CompressionMethod::Deflated } else { zip::CompressionMethod::Stored };
    let options = zip::write::FileOptions::default()
        .compression_method(method)
        .unix_permissions(permissions)
        .last_modified_time(time);
    packer.writer.start_file(name, options).map_err(std::io::Error::from)?;
    std::io::Write::write_all(&mut packer.writer, data)
}

/// `ZipWriter::finish`, and the vector of the cursor that it hands back:
/// the archive of the entries that the writer holds.
#[verifier::external_body]
pub(crate) fn zip_packer_finish(packer: ZipPacker) -> (r: Result<Vec<u8>, std::io::Error>)
    ensures
        match r {
            Ok(bytes) => zip_image(zip_pending(packer)) == Some(bytes@),
            Err(_) => zip_image(zip_pending(packer)) is None,
        },
{
    let mut packer = packer;
    let cursor = packer.writer.finish().map_err(std::io::Error::from)?;
    Ok(cursor.into_inner())
}

/// `ZipArchive::new` over a cursor on `data`.
#[verifier::external_body]
pub(crate) fn zip_open(data: Vec<u8>) -> (r: Result<
    zip::ZipArchive<std::io::Cursor<Vec<u8>>>,
    std::io::Error,
>)
    ensures
        match r {
            Ok(archive) => zip_source(archive) == data@ && zip_entry_count(data@) is Some,
            Err(_) => zip_entry_count(data@) is None,
        },
{
    zip::ZipArchive::new(std::io::Cursor::new(data)).map_err(std::io::Error::from)
}

/// `ZipArchive::len`: the number of entries of the archive.
#[verifier::external_body]
pub(crate) fn zip_len(archive: &zip::ZipArchive<std::io::Cursor<Vec<u8>>>) -> (count: usize)
    ensures
        zip_entry_count(zip_source(*archive)) == Some(count as nat),
{
    archive.len()
}

/// `ZipArchive::by_index`, then the entry read to its end, with its name,
/// its mode and its timestamp. What is read is a function of the bytes of
/// the archive and of the index.
#[verifier::external_body]
pub(crate) fn zip_read(archive: &mut zip::ZipArchive<std::io::Cursor<Vec<u8>>>, index: usize) -> (r:
    Result<ZipMember, std::io::Error>)
    ensures
        zip_source(*final(archive)) == zip_source(*old(archive)),
        match r {
            Ok(member) => zip_entry(zip_source(*old(archive)), index as nat) == Some(member@),
            Err(_) => zip_entry(zip_source(*old(archive)), index as nat) is None,
        },
{
    let mut file = archive.by_index(index).map_err(std::io::Error::from)?;
    let mut data = Vec::new();
    std::io::Read::read_to_end(&mut file, &mut data)?;
    let time = file.last_modified();
    let modified = DosDateTime {
        year: time.year(),
        month: time.month(),
        day: time.day(),
        hour: time.hour(),
        minute: time.minute(),
        second: time.second(),
    };
    Ok(ZipMember { name: file.name().to_string(), data, mode: file.unix_mode(), modified })
}

} // verus!
