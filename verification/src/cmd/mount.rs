//! The mount command.

use vstd::prelude::*;
use std::path::PathBuf;

verus! {

/// `std::path::PathBuf`, which this crate carries through and never looks
/// into.
#[verifier::external_type_specification]
#[verifier::external_body]
pub struct ExPathBuf(std::path::PathBuf);

/// `PathBuf::clone`: the copy is the same path as the one it was made from.
pub assume_specification[ <PathBuf as Clone>::clone ](path: &PathBuf) -> (copy: PathBuf)
    ensures
        copy == *path,
;

/// Arguments for the mount command.
#[derive(Debug, Clone)]
pub struct MountArgs {
    /// The agent filesystem ID or path.
    pub id_or_path: String,
    /// The mountpoint path.
    pub mountpoint: PathBuf,
    /// Automatically unmount when the process exits.
    pub auto_unmount: bool,
    /// Allow root to access the mount.
    pub allow_root: bool,
    /// Run in foreground (don't daemonize).
    pub foreground: bool,
    /// User ID to report for all files (defaults to current user).
    pub uid: Option<u32>,
    /// Group ID to report for all files (defaults to current group).
    pub gid: Option<u32>,
}

/// How long a background mount may take to become ready, in seconds.
pub const READY_TIMEOUT_SECS: u64 = 10;

/// The query that asks the overlay configuration for its base path.
pub const BASE_PATH_QUERY: &'static str =
    "SELECT value FROM fs_overlay_config WHERE key = 'base_path'";

/// What the mount binding is told.
#[derive(Debug, Clone)]
pub struct FuseMountOptions {
    /// The mountpoint path.
    pub mountpoint: PathBuf,
    /// Automatically unmount when the process exits.
    pub auto_unmount: bool,
    /// Allow root to access the mount.
    pub allow_root: bool,
    /// The name under which the filesystem appears in the mount table.
    pub fsname: String,
    /// User ID to report for all files.
    pub uid: Option<u32>,
    /// Group ID to report for all files.
    pub gid: Option<u32>,
}

/// How the worker that serves the mount is run.
#[derive(Debug, Clone)]
pub enum Launch {
    /// In this process: the command returns when the service stops.
    Foreground,
    /// In a detached background process, which counts as ready once `probe`
    /// is a mount point and as failed if that takes longer than the timeout.
    Background { probe: PathBuf, timeout_secs: u64 },
}

/// What the mount command does once its setup has passed.
#[derive(Debug, Clone)]
pub struct MountPlan {
    /// The options for the mount binding.
    pub options: FuseMountOptions,
    /// How the worker is run.
    pub launch: Launch,
}

/// Why the mount command stops before anything is started.
#[derive(Debug, Clone)]
pub enum MountError {
    /// The mountpoint does not exist.
    MountpointMissing { mountpoint: PathBuf },
}

impl MountError {
    /// What went wrong, in words; the path in question follows after a colon.
    pub fn message(&self) -> (text: &'static str)
        ensures
            text@ == "Mountpoint does not exist"@,
    {
        match self {
            MountError::MountpointMissing { .. } => "Mountpoint does not exist",
        }
    }
}

/// The filesystem's name in the mount table: the canonical form of the
/// source where there is one, else the source as it was given.
pub open spec fn spec_fsname(id_or_path: String, canonical: Option<String>) -> String {
    match canonical {
        Some(path) => path,
        None => id_or_path,
    }
}

/// How the worker is run: in the foreground where that was asked for, else
/// in the background, probing the mountpoint.
pub open spec fn spec_launch(args: MountArgs) -> Launch {
    if args.foreground {
        Launch::Foreground
    } else {
        Launch::Background { probe: args.mountpoint, timeout_secs: READY_TIMEOUT_SECS }
    }
}

/// The mount command's plan.  A mountpoint that does not exist is an error,
/// whatever else was asked for.
pub open spec fn spec_mount(args: MountArgs, canonical: Option<String>, mountpoint_exists: bool)
    -> Result<MountPlan, MountError> {
    if !mountpoint_exists {
        Err(MountError::MountpointMissing { mountpoint: args.mountpoint })
    } else {
        Ok(
            MountPlan {
                options: FuseMountOptions {
                    mountpoint: args.mountpoint,
                    auto_unmount: args.auto_unmount,
                    allow_root: args.allow_root,
                    fsname: spec_fsname(args.id_or_path, canonical),
                    uid: args.uid,
                    gid: args.gid,
                },
                launch: spec_launch(args),
            },
        )
    }
}

/// Plans the mount of the agent filesystem.
///
/// `canonical` is the canonical form of `args.id_or_path` as a path, where
/// the system could give one; `mountpoint_exists` says whether
/// `args.mountpoint` exists.  The plan comes before any process is
/// duplicated, so a missing mountpoint leaves no background process behind.
pub fn mount(args: MountArgs, canonical: Option<String>, mountpoint_exists: bool) -> (result:
    Result<MountPlan, MountError>)
    ensures
        result is Err <==> !mountpoint_exists,
        result == spec_mount(args, canonical, mountpoint_exists),
{
    if !mountpoint_exists {
        return Err(MountError::MountpointMissing { mountpoint: args.mountpoint });
    }
    let launch = if args.foreground {
        Launch::Foreground
    } else {
        Launch::Background { probe: args.mountpoint.clone(), timeout_secs: READY_TIMEOUT_SECS }
    };
    let fsname = match canonical {
        Some(path) => path,
        None => args.id_or_path,
    };
    Ok(
        MountPlan {
            options: FuseMountOptions {
                mountpoint: args.mountpoint,
                auto_unmount: args.auto_unmount,
                allow_root: args.allow_root,
                fsname,
                uid: args.uid,
                gid: args.gid,
            },
            launch,
        },
    )
}

/// A value as the configuration store holds it.
#[derive(Debug, Clone, PartialEq, Eq)]
pub enum StoredValue {
    /// No value.
    Null,
    /// A whole number.
    Integer(i64),
    /// A real number, which nothing here reads.
    Real,
    /// A text.
    Text(String),
    /// Raw bytes.
    Blob(Vec<u8>),
}

/// How the lookup of the overlay's base path went.
#[derive(Debug, Clone, PartialEq, Eq)]
pub enum ConfigLookup {
    /// The query failed, for instance because the configuration table does
    /// not exist.
    QueryFailed,
    /// The query gave no row, or the row could not be fetched.
    NoRow,
    /// The row's value could not be read.
    Unreadable,
    /// The row's value.
    Found(StoredValue),
}

/// `turso::Row`, one row of a query's result: a list of values, one for each
/// column.
#[verifier::external_type_specification]
#[verifier::external_body]
pub struct ExRow(turso::Row);

/// The values that a row holds, in the order of the columns.  Of a real
/// number only its kind is kept.
pub uninterp spec fn row_values(row: turso::Row) -> Seq<StoredValue>;

/// `turso::Row::column_count`: the number of values that the row holds.
#[verifier::external_body]
fn column_count(row: &turso::Row) -> (count: usize)
    ensures
        count == row_values(*row).len(),
{
    row.column_count()
}

/// `turso::Row::get_value`: a copy of the value in the column at `index`.
/// For an index that the row has, the call returns that value and never an
/// error; for any other index it panics.
#[verifier::external_body]
fn get_value(row: &turso::Row, index: usize) -> (value: Option<StoredValue>)
    requires
        index < row_values(*row).len(),
    ensures
        value == Some(row_values(*row)[index as int]),
{
    match row.get_value(index) {
        Ok(turso::Value::Null) => Some(StoredValue::Null),
        Ok(turso::Value::Integer(number)) => Some(StoredValue::Integer(number)),
        Ok(turso::Value::Real(_)) => Some(StoredValue::Real),
        Ok(turso::Value::Text(text)) => Some(StoredValue::Text(text)),
        Ok(turso::Value::Blob(bytes)) => Some(StoredValue::Blob(bytes)),
        Err(_) => None,
    }
}

/// What the row that answers the base path query says: the value of its
/// first column, where it has one.
pub open spec fn spec_read_config_row(values: Seq<StoredValue>) -> ConfigLookup {
    if values.len() > 0 {
        ConfigLookup::Found(values[0])
    } else {
        ConfigLookup::Unreadable
    }
}

/// Reads the value out of the row that answers the base path query.
pub fn read_config_row(row: &turso::Row) -> (lookup: ConfigLookup)
    ensures
        lookup == spec_read_config_row(row_values(*row)),
{
    if column_count(row) > 0 {
        match get_value(row, 0) {
            Some(value) => ConfigLookup::Found(value),
            None => ConfigLookup::Unreadable,
        }
    } else {
        ConfigLookup::Unreadable
    }
}

/// The base path of the overlay: the text that the lookup found, if it
/// found one.
pub open spec fn spec_overlay_base_path(lookup: ConfigLookup) -> Option<String> {
    match lookup {
        ConfigLookup::Found(StoredValue::Text(base_path)) => Some(base_path),
        _ => None,
    }
}

/// Decides whether the filesystem is layered over a directory of the host,
/// and over which.
///
/// Only a text value names a base path.  A lookup that failed, found nothing
/// or found something else means a plain filesystem; it is never an error.
pub fn overlay_base_path(lookup: ConfigLookup) -> (base_path: Option<String>)
    ensures
        base_path == spec_overlay_base_path(lookup),
{
    match lookup {
        ConfigLookup::Found(StoredValue::Text(base_path)) => Some(base_path),
        _ => None,
    }
}

/// The directory against which the mountpoint is compared: its immediate
/// parent.  Where the path names its parent, that is the directory named;
/// where the parent is the empty path, it is the current directory; where
/// the path has no parent, it is a root, and is compared with the root.
pub open spec fn spec_probe_parent<P>(
    parent: Option<P>,
    parent_is_empty: bool,
    current: P,
    root: P,
) -> P {
    match parent {
        Some(directory) => if parent_is_empty {
            current
        } else {
            directory
        },
        None => root,
    }
}

/// Chooses the directory against which the mountpoint is compared.
///
/// `parent` is the mountpoint's parent, `None` where the path ends in a root;
/// `parent_is_empty` says whether that parent is the empty path, as it is
/// for a relative path of one component, which lies in the current
/// directory; `current` is the current directory and `root` the root
/// directory.
pub fn probe_parent<P>(parent: Option<P>, parent_is_empty: bool, current: P, root: P) -> (directory:
    P)
    ensures
        directory == spec_probe_parent(parent, parent_is_empty, current, root),
{
    match parent {
        Some(directory) => if parent_is_empty {
            current
        } else {
            directory
        },
        None => root,
    }
}

/// Whether a path is the root of a mounted filesystem of its own: both
/// device identifiers are known and they differ.
pub open spec fn spec_is_mounted(path_dev: Option<u64>, parent_dev: Option<u64>) -> bool {
    &&& path_dev is Some
    &&& parent_dev is Some
    &&& path_dev->0 != parent_dev->0
}

/// Tells whether a path is a mountpoint by comparing device identifiers.
///
/// `path_dev` is the identifier of the device that holds the path, and
/// `parent_dev` that of the directory chosen by [`probe_parent`]; each is
/// `None` where the metadata could not be read.  While startup is under way
/// that is expected, so it means "not mounted" and is no error.
pub fn is_mounted(path_dev: Option<u64>, parent_dev: Option<u64>) -> (mounted: bool)
    ensures
        mounted == spec_is_mounted(path_dev, parent_dev),
{
    match (path_dev, parent_dev) {
        (Some(path), Some(parent)) => path != parent,
        _ => false,
    }
}

} // verus!
