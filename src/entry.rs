use vstd::prelude::*;

use crate::perm::{numeric_to_symbolic, symbolic};
use crate::text::{decimal, decimal_text, signed_decimal, signed_decimal_text};

verus! {

/// Raw metadata of one filesystem object, as a stat call reports it.
#[derive(Clone, Copy, Debug)]
pub struct Stat {
    pub size: u64,
    pub is_dir: bool,
    pub uid: u32,
    pub gid: u32,
    pub mode: u32,
    /// Modification time, whole seconds since the Unix epoch.
    pub mtime_secs: i64,
    /// Modification time, nanoseconds past `mtime_secs`.
    pub mtime_nanos: u32,
    pub nlink: u64,
    pub blocks: u64,
}

/// One entry record, with every field ready for display.
#[derive(Clone, Debug)]
pub struct File {
    pub name: String,
    pub size: u64,
    pub is_dir: bool,
    pub user: String,
    pub group: String,
    pub permissions: String,
    pub date: String,
    pub nlink: u64,
    pub nblocks: u64,
}

/// The mathematical value of an entry record.
pub ghost struct FileView {
    pub name: Seq<char>,
    pub size: u64,
    pub is_dir: bool,
    pub user: Seq<char>,
    pub group: Seq<char>,
    pub permissions: Seq<char>,
    pub date: Seq<char>,
    pub nlink: u64,
    pub nblocks: u64,
}

impl View for File {
    type V = FileView;

    open spec fn view(&self) -> FileView {
        FileView {
            name: self.name@,
            size: self.size,
            is_dir: self.is_dir,
            user: self.user@,
            group: self.group@,
            permissions: self.permissions@,
            date: self.date@,
            nlink: self.nlink,
            nblocks: self.nblocks,
        }
    }
}

/// The views of a sequence of entry records.
pub open spec fn views(files: Seq<File>) -> Seq<FileView> {
    files.map_values(|f: File| f@)
}

/// The text of an optional string.
pub open spec fn opt_text(o: Option<String>) -> Option<Seq<char>> {
    match o {
        Some(s) => Some(s@),
        None => None,
    }
}

/// The name shown for an owner or a group: the name found for its id, or the
/// id itself in decimal when none was found.
pub open spec fn identity_text(found: Option<Seq<char>>, id: u32) -> Seq<char> {
    match found {
        Some(s) => s,
        None => decimal(id as nat),
    }
}

/// The date shown for an entry: the local time stamp, or the raw seconds in
/// decimal when the time lies outside what can be rendered as a date.
pub open spec fn date_text(stamp: Option<Seq<char>>, secs: i64) -> Seq<char> {
    match stamp {
        Some(s) => s,
        None => signed_decimal(secs as int),
    }
}

/// The fields of a record that its name and its metadata alone decide.
pub open spec fn describes(f: FileView, name: Seq<char>, st: Stat) -> bool {
    &&& f.name == name
    &&& f.size == st.size
    &&& f.is_dir == st.is_dir
    &&& f.permissions == symbolic(st.mode)
    &&& f.nlink == st.nlink
    &&& f.nblocks == st.blocks
}

/// The record built from a name, its metadata, the owner and group names
/// found (if any) and the local time stamp (if any).
pub open spec fn record_of(
    name: Seq<char>,
    st: Stat,
    user: Option<Seq<char>>,
    group: Option<Seq<char>>,
    stamp: Option<Seq<char>>,
) -> FileView {
    FileView {
        name: name,
        size: st.size,
        is_dir: st.is_dir,
        user: identity_text(user, st.uid),
        group: identity_text(group, st.gid),
        permissions: symbolic(st.mode),
        date: date_text(stamp, st.mtime_secs),
        nlink: st.nlink,
        nblocks: st.blocks,
    }
}

/// Relies on users::get_user_by_uid, which reads the user database, and on
/// User::name: the name of the user with this id, if there is one.
#[verifier::external_body]
fn lookup_user_name(uid: u32) -> (r: Option<String>) {
    users::get_user_by_uid(uid).map(|u| u.name().to_string_lossy().to_string())
}

/// Relies on users::get_group_by_gid, which reads the group database, and on
/// Group::name: the name of the group with this id, if there is one.
#[verifier::external_body]
fn lookup_group_name(gid: u32) -> (r: Option<String>) {
    users::get_group_by_gid(gid).map(|g| g.name().to_string_lossy().to_string())
}

/// The first and last second that chrono's dates can hold, counted from the
/// Unix epoch: January 1 of year -262143 and the end of December 31 of year
/// 262142.
pub open spec fn first_stamp_second() -> int {
    -8_334_601_228_800
}

/// See `first_stamp_second`.
pub open spec fn last_stamp_second() -> int {
    8_210_266_876_799
}

/// Whether chrono can turn this time into a date: the second lies in its date
/// range, and the nanoseconds are below one second, or below two on the last
/// second of a minute (a leap second).
pub open spec fn stamp_in_range(secs: i64, nanos: u32) -> bool {
    &&& first_stamp_second() <= secs <= last_stamp_second()
    &&& nanos < 2_000_000_000
    &&& (nanos < 1_000_000_000 || (secs as int) % 60 == 59)
}

/// The shape of a `%b %e %H:%M` stamp: twelve characters, a three-letter
/// month, a space, the day padded to two characters, a space, then `HH:MM`.
pub open spec fn stamp_shaped(t: Seq<char>) -> bool {
    &&& t.len() == 12
    &&& t[3] == ' '
    &&& t[6] == ' '
    &&& t[9] == ':'
}

/// Relies on chrono's DateTime::from_timestamp, which alone decides `None`
/// (a second outside its date range, or nanoseconds not valid for that
/// second), DateTime::with_timezone into Local (the machine's time zone) and
/// format with `%b %e %H:%M`, which always writes a three-letter month, a
/// space, the day padded to two, a space and `HH:MM`.
#[verifier::external_body]
fn format_system_time(secs: i64, nanos: u32) -> (r: Option<String>)
    ensures
        r is Some <==> stamp_in_range(secs, nanos),
        r matches Some(t) ==> stamp_shaped(t@),
{
    chrono::DateTime::from_timestamp(secs, nanos).map(
        |t| t.with_timezone(&chrono::Local).format("%b %e %H:%M").to_string(),
    )
}

fn identity_or_id(found: Option<String>, id: u32) -> (r: String)
    ensures
        r@ == identity_text(opt_text(found), id),
{
    match found {
        Some(s) => s,
        None => decimal_text(id as u128),
    }
}

/// Builds the record of an entry from its name, its metadata, the owner and
/// group names looked up for it and its rendered time stamp; an owner or group
/// that was not found shows as its numeric id, a missing stamp as the seconds.
pub fn entry_from_parts(
    name: String,
    st: &Stat,
    user: Option<String>,
    group: Option<String>,
    stamp: Option<String>,
) -> (r: File)
    ensures
        r@ == record_of(name@, *st, opt_text(user), opt_text(group), opt_text(stamp)),
{
    let date = match stamp {
        Some(s) => s,
        None => signed_decimal_text(st.mtime_secs),
    };
    File {
        name: name,
        size: st.size,
        is_dir: st.is_dir,
        user: identity_or_id(user, st.uid),
        group: identity_or_id(group, st.gid),
        permissions: numeric_to_symbolic(st.mode),
        date: date,
        nlink: st.nlink,
        nblocks: st.blocks,
    }
}

/// The date of a record: a local time stamp where chrono can render the
/// modification time, else the seconds in decimal.
pub open spec fn dated(f: FileView, st: Stat) -> bool {
    if stamp_in_range(st.mtime_secs, st.mtime_nanos) {
        stamp_shaped(f.date)
    } else {
        f.date == signed_decimal(st.mtime_secs as int)
    }
}

/// Resolves the record of an entry: looks up its owner and group names and
/// renders its modification time in local time, then builds the record.
/// The owner and group names come from the user and group databases of the
/// machine, and the stamp from its time zone: nothing is promised of their
/// text beyond the shape of the stamp.
pub fn get_file_info(name: String, st: &Stat) -> (r: File)
    ensures
        describes(r@, name@, *st),
        dated(r@, *st),
{
    let user = lookup_user_name(st.uid);
    let group = lookup_group_name(st.gid);
    let stamp = format_system_time(st.mtime_secs, st.mtime_nanos);
    entry_from_parts(name, st, user, group, stamp)
}

} // verus!
