//! Configuration-object parsing.
//!
//! A configuration object crosses the boundary as a list of named, dynamically
//! typed values.  The adapter parses it against a fixed enumerated option set:
//! an option is applied only if it is present under its exact name and carries
//! the expected type; unrecognized names are silently ignored; absent or
//! mistyped options leave the engine's defaults in force.  Numeric options
//! are narrowed with saturation: a value outside the target range becomes
//! the nearest representable one.

use vstd::prelude::*;
use vstd::string::StringExecFns;

verus! {

/// A dynamically-typed value of a configuration object.
#[derive(Debug, Clone, PartialEq, Eq)]
pub enum OptValue {
    /// A boolean option value.
    Flag(bool),
    /// A numeric option value, as an integer.
    Num(i64),
    /// A textual option value.
    Text(String),
    /// A value of a type the option set has no use for.
    Other,
}

/// One named option of a configuration object.
#[derive(Debug, Clone, PartialEq, Eq)]
pub struct OptEntry {
    /// The option's name.
    pub key: String,
    /// The option's value.
    pub value: OptValue,
}

/// The value under the first occurrence of a name, if any.
pub open spec fn spec_lookup(opts: Seq<OptEntry>, key: Seq<char>) -> Option<OptValue>
    decreases opts.len(),
{
    if opts.len() == 0 {
        None
    } else if opts[0].key@ == key {
        Some(opts[0].value)
    } else {
        spec_lookup(opts.subrange(1, opts.len() as int), key)
    }
}

/// A boolean option: present under its name and boolean-typed, else absent.
pub open spec fn flag_opt(opts: Seq<OptEntry>, key: Seq<char>) -> Option<bool> {
    match spec_lookup(opts, key) {
        Some(OptValue::Flag(b)) => Some(b),
        _ => None,
    }
}

/// A numeric value saturated into a limit code.
pub open spec fn sat_i32(n: i64) -> i32 {
    if n > i32::MAX as i64 {
        i32::MAX
    } else if n < i32::MIN as i64 {
        i32::MIN
    } else {
        n as i32
    }
}

/// A numeric value saturated into a version limit.
pub open spec fn sat_u8(n: i64) -> u8 {
    if n > u8::MAX as i64 {
        u8::MAX
    } else if n < 0 {
        0
    } else {
        n as u8
    }
}

/// A numeric option narrowed to the engine's limit codes: present under its
/// name and numeric, else absent.
pub open spec fn num_opt_i32(opts: Seq<OptEntry>, key: Seq<char>) -> Option<i32> {
    match spec_lookup(opts, key) {
        Some(OptValue::Num(n)) => Some(sat_i32(n)),
        _ => None,
    }
}

/// A numeric option narrowed to a version limit: present under its name and
/// numeric, else absent.
pub open spec fn num_opt_u8(opts: Seq<OptEntry>, key: Seq<char>) -> Option<u8> {
    match spec_lookup(opts, key) {
        Some(OptValue::Num(n)) => Some(sat_u8(n)),
        _ => None,
    }
}

/// Finds the first occurrence of a name, exactly as `spec_lookup` states.
pub fn lookup<'a>(opts: &'a Vec<OptEntry>, key: &str) -> (r: Option<&'a OptValue>)
    ensures
        match r {
            Some(v) => spec_lookup(opts@, key@) == Some(*v),
            None => spec_lookup(opts@, key@) is None,
        },
{
    let k = String::from_str(key);
    let mut i: usize = 0;
    proof {
        assert(opts@.subrange(0, opts@.len() as int) =~= opts@);
    }
    while i < opts.len()
        invariant
            i <= opts@.len(),
            k@ == key@,
            spec_lookup(opts@, key@) == spec_lookup(
                opts@.subrange(i as int, opts@.len() as int),
                key@,
            ),
        decreases opts@.len() - i,
    {
        if opts[i].key == k {
            proof {
                assert(opts@.subrange(i as int, opts@.len() as int)[0] == opts@[i as int]);
            }
            return Some(&opts[i].value);
        }
        proof {
            let tail = opts@.subrange(i as int, opts@.len() as int);
            assert(tail[0] == opts@[i as int]);
            assert(tail.subrange(1, tail.len() as int) =~= opts@.subrange(
                i as int + 1,
                opts@.len() as int,
            ));
        }
        i = i + 1;
    }
    proof {
        assert(opts@.subrange(i as int, opts@.len() as int).len() == 0);
    }
    None
}

/// A boolean option, exactly as `flag_opt` states.
pub fn get_flag(opts: &Vec<OptEntry>, key: &str) -> (r: Option<bool>)
    ensures
        r == flag_opt(opts@, key@),
{
    match lookup(opts, key) {
        Some(OptValue::Flag(b)) => Some(*b),
        _ => None,
    }
}

/// A numeric option narrowed to a limit code, exactly as `num_opt_i32`
/// states.
pub fn get_num_i32(opts: &Vec<OptEntry>, key: &str) -> (r: Option<i32>)
    ensures
        r == num_opt_i32(opts@, key@),
{
    match lookup(opts, key) {
        Some(OptValue::Num(n)) => {
            let v = *n;
            if v > i32::MAX as i64 {
                Some(i32::MAX)
            } else if v < i32::MIN as i64 {
                Some(i32::MIN)
            } else {
                Some(v as i32)
            }
        },
        _ => None,
    }
}

/// A numeric option narrowed to a version limit, exactly as `num_opt_u8`
/// states.
pub fn get_num_u8(opts: &Vec<OptEntry>, key: &str) -> (r: Option<u8>)
    ensures
        r == num_opt_u8(opts@, key@),
{
    match lookup(opts, key) {
        Some(OptValue::Num(n)) => {
            let v = *n;
            if v > u8::MAX as i64 {
                Some(u8::MAX)
            } else if v < 0 {
                Some(0)
            } else {
                Some(v as u8)
            }
        },
        _ => None,
    }
}

/// The parsed repository-opening option set: each field carries the caller's
/// choice where one was given correctly, and is absent where the engine's
/// default is to stay in force.
#[derive(Debug, Clone, PartialEq, Eq)]
pub struct RepoConfig {
    /// Password-hashing operations limit code.
    pub ops_limit: Option<i32>,
    /// Password-hashing memory limit code.
    pub mem_limit: Option<i32>,
    /// Cipher selection code.
    pub cipher: Option<i32>,
    /// Create the repository if it is absent.
    pub create: Option<bool>,
    /// Create the repository, failing if it already exists.
    pub create_new: Option<bool>,
    /// Enable compression.
    pub compress: Option<bool>,
    /// Maximum number of file versions kept.
    pub version_limit: Option<u8>,
    /// Enable content deduplication.
    pub dedup_chunk: Option<bool>,
    /// Open read-only.
    pub read_only: Option<bool>,
    /// Force opening a repository that is marked as already opened.
    pub force: Option<bool>,
}

/// The repository option set as `parse_repo_config` pins it, as a single
/// spec value.
pub open spec fn parse_repo_config_result(opts: Seq<OptEntry>) -> RepoConfig {
    RepoConfig {
        ops_limit: num_opt_i32(opts, "opsLimit"@),
        mem_limit: num_opt_i32(opts, "memLimit"@),
        cipher: num_opt_i32(opts, "cipher"@),
        create: flag_opt(opts, "create"@),
        create_new: flag_opt(opts, "createNew"@),
        compress: flag_opt(opts, "compress"@),
        version_limit: num_opt_u8(opts, "versionLimit"@),
        dedup_chunk: flag_opt(opts, "dedupChunk"@),
        read_only: flag_opt(opts, "readOnly"@),
        force: flag_opt(opts, "force"@),
    }
}

/// Parses a repository-opening configuration object against the fixed
/// option set.  Every field is pinned to what the object holds under the
/// option's name: unrecognized names have no influence, and a mistyped
/// value counts as absent.
pub fn parse_repo_config(opts: &Vec<OptEntry>) -> (c: RepoConfig)
    ensures
        c.ops_limit == num_opt_i32(opts@, "opsLimit"@),
        c.mem_limit == num_opt_i32(opts@, "memLimit"@),
        c.cipher == num_opt_i32(opts@, "cipher"@),
        c.create == flag_opt(opts@, "create"@),
        c.create_new == flag_opt(opts@, "createNew"@),
        c.compress == flag_opt(opts@, "compress"@),
        c.version_limit == num_opt_u8(opts@, "versionLimit"@),
        c.dedup_chunk == flag_opt(opts@, "dedupChunk"@),
        c.read_only == flag_opt(opts@, "readOnly"@),
        c.force == flag_opt(opts@, "force"@),
        c == parse_repo_config_result(opts@),
{
    RepoConfig {
        ops_limit: get_num_i32(opts, "opsLimit"),
        mem_limit: get_num_i32(opts, "memLimit"),
        cipher: get_num_i32(opts, "cipher"),
        create: get_flag(opts, "create"),
        create_new: get_flag(opts, "createNew"),
        compress: get_flag(opts, "compress"),
        version_limit: get_num_u8(opts, "versionLimit"),
        dedup_chunk: get_flag(opts, "dedupChunk"),
        read_only: get_flag(opts, "readOnly"),
        force: get_flag(opts, "force"),
    }
}

/// The file-opening option set as `parse_file_config` pins it, as a single
/// spec value.
pub open spec fn parse_file_config_result(opts: Seq<OptEntry>) -> FileConfig {
    FileConfig {
        read: flag_opt(opts, "read"@),
        write: flag_opt(opts, "write"@),
        append: flag_opt(opts, "append"@),
        truncate: flag_opt(opts, "truncate"@),
        create: flag_opt(opts, "create"@),
        create_new: flag_opt(opts, "createNew"@),
        version_limit: num_opt_u8(opts, "versionLimit"@),
        dedup_chunk: flag_opt(opts, "dedupChunk"@),
    }
}

/// The parsed file-opening option set.
#[derive(Debug, Clone, PartialEq, Eq)]
pub struct FileConfig {
    /// Open for reading.
    pub read: Option<bool>,
    /// Open for writing.
    pub write: Option<bool>,
    /// Append on write.
    pub append: Option<bool>,
    /// Truncate on open.
    pub truncate: Option<bool>,
    /// Create the file if it is absent.
    pub create: Option<bool>,
    /// Create the file, failing if it already exists.
    pub create_new: Option<bool>,
    /// Maximum number of versions kept for this file.
    pub version_limit: Option<u8>,
    /// Enable content deduplication for this file.
    pub dedup_chunk: Option<bool>,
}

/// Parses a file-opening configuration object against the fixed option
/// set, with the same discipline as `parse_repo_config`.
pub fn parse_file_config(opts: &Vec<OptEntry>) -> (c: FileConfig)
    ensures
        c.read == flag_opt(opts@, "read"@),
        c.write == flag_opt(opts@, "write"@),
        c.append == flag_opt(opts@, "append"@),
        c.truncate == flag_opt(opts@, "truncate"@),
        c.create == flag_opt(opts@, "create"@),
        c.create_new == flag_opt(opts@, "createNew"@),
        c.version_limit == num_opt_u8(opts@, "versionLimit"@),
        c.dedup_chunk == flag_opt(opts@, "dedupChunk"@),
        c == parse_file_config_result(opts@),
{
    FileConfig {
        read: get_flag(opts, "read"),
        write: get_flag(opts, "write"),
        append: get_flag(opts, "append"),
        truncate: get_flag(opts, "truncate"),
        create: get_flag(opts, "create"),
        create_new: get_flag(opts, "createNew"),
        version_limit: get_num_u8(opts, "versionLimit"),
        dedup_chunk: get_flag(opts, "dedupChunk"),
    }
}

} // verus!
