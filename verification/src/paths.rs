//! Path planning: resolving configured locations and naming scratch copies.
//!
//! Paths are plain character strings here. A path is absolute when it starts
//! with a separator or carries a drive prefix; joining puts one `/` between
//! base and child, and a child that is itself absolute replaces the base.
//! The filesystem work — canonicalizing the configuration file's own path,
//! copying files and directories — belongs to collaborators; these functions
//! decide every name and location those collaborators use.

use vstd::prelude::*;
use crate::config::ConfigPayload;
use crate::errors::Error;

verus! {

/// The decimal digit characters.
pub open spec fn spec_digit(d: int) -> char {
    if d == 0 {
        '0'
    } else if d == 1 {
        '1'
    } else if d == 2 {
        '2'
    } else if d == 3 {
        '3'
    } else if d == 4 {
        '4'
    } else if d == 5 {
        '5'
    } else if d == 6 {
        '6'
    } else if d == 7 {
        '7'
    } else if d == 8 {
        '8'
    } else {
        '9'
    }
}

/// The decimal rendering of a number, most significant digit first.
pub open spec fn spec_decimal(n: nat) -> Seq<char>
    decreases n,
{
    if n < 10 {
        seq![spec_digit(n as int)]
    } else {
        spec_decimal(n / 10) + seq![spec_digit((n % 10) as int)]
    }
}

/// The one-character string of a decimal digit.
fn digit_str(d: u64) -> (r: &'static str)
    requires
        d < 10,
    ensures
        r@ == seq![spec_digit(d as int)],
{
    proof {
        reveal_strlit("0");
        reveal_strlit("1");
        reveal_strlit("2");
        reveal_strlit("3");
        reveal_strlit("4");
        reveal_strlit("5");
        reveal_strlit("6");
        reveal_strlit("7");
        reveal_strlit("8");
        reveal_strlit("9");
    }
    if d == 0 {
        "0"
    } else if d == 1 {
        "1"
    } else if d == 2 {
        "2"
    } else if d == 3 {
        "3"
    } else if d == 4 {
        "4"
    } else if d == 5 {
        "5"
    } else if d == 6 {
        "6"
    } else if d == 7 {
        "7"
    } else if d == 8 {
        "8"
    } else {
        "9"
    }
}

/// Render a number in decimal.
pub fn decimal_string(n: u64) -> (r: String)
    ensures
        r@ == spec_decimal(n as nat),
    decreases n,
{
    if n < 10 {
        let r = String::from_str(digit_str(n));
        proof {
            assert(r@ =~= spec_decimal(n as nat));
        }
        r
    } else {
        let mut s = decimal_string(n / 10);
        s.append(digit_str(n % 10));
        proof {
            assert(s@ =~= spec_decimal(n as nat));
        }
        s
    }
}

/// The name of a scratch copy made at `unix_ms` milliseconds since the
/// epoch: a fixed prefix and the timestamp in decimal.
pub open spec fn spec_temp_filename(unix_ms: u64) -> Seq<char> {
    "goalnet-"@ + spec_decimal(unix_ms as nat)
}

/// Scratch-copy name for a moment in time, unique per millisecond.
pub fn temp_filename(unix_ms: u64) -> (r: String)
    ensures
        r@ == spec_temp_filename(unix_ms),
{
    let mut s = String::from_str("goalnet-");
    let digits = decimal_string(unix_ms);
    s.append(digits.as_str());
    s
}

/// A path separator: either slash works for the target platform's APIs.
pub open spec fn spec_is_sep(c: char) -> bool {
    c == '/' || c == '\\'
}

/// A path is absolute when it starts with a separator or names a drive.
pub open spec fn spec_is_absolute(p: Seq<char>) -> bool {
    (p.len() > 0 && spec_is_sep(p[0])) || (p.len() >= 2 && p[1] == ':')
}

/// Whether a path string is absolute under this crate's path model.
pub fn is_absolute(p: &str) -> (r: bool)
    ensures
        r == spec_is_absolute(p@),
{
    let n = p.unicode_len();
    if n == 0 {
        return false;
    }
    let first = p.get_char(0);
    if first == '/' || first == '\\' {
        return true;
    }
    if n >= 2 {
        let second = p.get_char(1);
        second == ':'
    } else {
        false
    }
}

/// Everything before the last separator; empty when no separator occurs.
pub open spec fn spec_parent(p: Seq<char>) -> Seq<char>
    decreases p.len(),
{
    if p.len() == 0 {
        p
    } else if spec_is_sep(p.last()) {
        p.drop_last()
    } else {
        spec_parent(p.drop_last())
    }
}

/// The directory part of a path: everything before the last separator.
pub fn parent_of(p: &str) -> (r: String)
    ensures
        r@ == spec_parent(p@),
{
    let n = p.unicode_len();
    let mut end: usize = n;
    proof {
        assert(p@.take(n as int) =~= p@);
    }
    loop
        invariant
            end <= n,
            n == p@.len(),
            spec_parent(p@.take(end as int)) == spec_parent(p@),
        decreases end,
    {
        if end == 0 {
            proof {
                assert(p@.take(0).len() == 0);
            }
            return String::new();
        }
        let c = p.get_char(end - 1);
        proof {
            assert(p@.take(end as int).last() == p@[end - 1]);
            assert(p@.take(end as int).drop_last() =~= p@.take(end - 1));
        }
        if c == '/' || c == '\\' {
            let r = p.substring_char(0, end - 1).to_owned();
            proof {
                assert(r@ =~= p@.take(end - 1));
            }
            return r;
        }
        end = end - 1;
    }
}

/// Join a base directory and a child: a child that is itself absolute
/// replaces the base, and an empty base contributes nothing but the child.
pub open spec fn spec_join(base: Seq<char>, child: Seq<char>) -> Seq<char> {
    if spec_is_absolute(child) {
        child
    } else if base.len() == 0 {
        child
    } else {
        base + seq!['/'] + child
    }
}

/// Join a base directory and a child path.
pub fn join(base: &str, child: &str) -> (r: String)
    ensures
        r@ == spec_join(base@, child@),
{
    proof {
        reveal_strlit("/");
    }
    if is_absolute(child) {
        child.to_owned()
    } else if base.unicode_len() == 0 {
        proof {
            assert(base@.len() == 0);
        }
        child.to_owned()
    } else {
        let mut s = base.to_owned();
        s.append("/");
        s.append(child);
        proof {
            assert("/"@ =~= seq!['/']);
            assert(s@ =~= spec_join(base@, child@));
        }
        s
    }
}

/// Where a configured location lives: an absolute location stands as given;
/// a relative one hangs off the directory holding the configuration file.
pub open spec fn spec_relative_dir(config_path: Seq<char>, dir: Seq<char>) -> Seq<char> {
    if spec_is_absolute(dir) {
        dir
    } else {
        spec_join(spec_parent(config_path), dir)
    }
}

/// Resolve a configured location against the configuration file's path.
pub fn relative_dir(config_path: &str, dir: &str) -> (r: String)
    ensures
        r@ == spec_relative_dir(config_path@, dir@),
{
    if is_absolute(dir) {
        dir.to_owned()
    } else {
        let parent = parent_of(config_path);
        join(parent.as_str(), dir)
    }
}

/// Where the injectable module is read from and, when staging is requested,
/// the scratch location it is copied to before injection.
pub struct ModulePlan {
    /// The resolved location of the configured module.
    pub source: String,
    /// The scratch copy to make and inject instead, when staging is on.
    pub staged: Option<String>,
}

/// The scratch name of a staged module copy: the timestamp name plus the
/// module suffix, under the scratch directory.
pub open spec fn spec_staged_module(temp_dir: Seq<char>, unix_ms: u64) -> Seq<char> {
    spec_join(temp_dir, spec_temp_filename(unix_ms) + ".dll"@)
}

/// Decide where the module to inject comes from. With no configured module
/// location the session cannot start: `ConfigError`, before any resolution
/// or injection attempt. Otherwise the location is resolved against the
/// configuration file, and when artifact staging is requested the plan also
/// names the scratch copy to make and use.
pub fn plan_module_path(
    goalnet_path: &Option<String>,
    copy_build_artifacts: bool,
    config_path: &str,
    temp_dir: &str,
    unix_ms: u64,
) -> (r: Result<ModulePlan, Error>)
    ensures
        match r {
            Ok(plan) => {
                &&& goalnet_path is Some
                &&& plan.source@ == spec_relative_dir(config_path@, goalnet_path->0@)
                &&& if copy_build_artifacts {
                    plan.staged is Some && plan.staged->0@ == spec_staged_module(
                        temp_dir@,
                        unix_ms,
                    )
                } else {
                    plan.staged is None
                }
            },
            Err(e) => e == Error::ConfigError && goalnet_path is None,
        },
{
    proof {
        reveal_strlit(".dll");
    }
    match goalnet_path {
        Some(path) => {
            let source = relative_dir(config_path, path.as_str());
            if copy_build_artifacts {
                let mut name = temp_filename(unix_ms);
                name.append(".dll");
                let staged = join(temp_dir, name.as_str());
                Ok(ModulePlan { source, staged: Some(staged) })
            } else {
                Ok(ModulePlan { source, staged: None })
            }
        },
        None => Err(Error::ConfigError),
    }
}

/// Every location the payload's bring-up touches, fully resolved.
pub struct PayloadPlan {
    /// The resolved payload directory.
    pub directory: String,
    /// The scratch directory the payload is copied to first, when staging
    /// is requested; bring-up then reads from the copy.
    pub staged: Option<String>,
    /// The runtime configuration file inside the effective directory.
    pub runtime_config: String,
    /// The payload assembly inside the effective directory.
    pub dll: String,
}

/// The directory bring-up actually reads from under a plan.
pub open spec fn spec_effective_dir(
    config_path: Seq<char>,
    payload_dir: Seq<char>,
    copy: bool,
    temp_dir: Seq<char>,
    unix_ms: u64,
) -> Seq<char> {
    if copy {
        spec_join(temp_dir, spec_temp_filename(unix_ms))
    } else {
        spec_relative_dir(config_path, payload_dir)
    }
}

/// Decide every path the payload's bring-up uses: the payload directory
/// resolved against the configuration file, the scratch copy when staging
/// is requested, and the runtime configuration and assembly locations
/// inside whichever directory is effective.
pub fn plan_payload_paths(
    payload: &ConfigPayload,
    config_path: &str,
    temp_dir: &str,
    unix_ms: u64,
) -> (r: PayloadPlan)
    ensures
        r.directory@ == spec_relative_dir(config_path@, payload.directory@),
        r.staged is Some <==> payload.copy_build_artifacts,
        payload.copy_build_artifacts ==> r.staged->0@ == spec_join(
            temp_dir@,
            spec_temp_filename(unix_ms),
        ),
        r.runtime_config@ == spec_join(
            spec_effective_dir(
                config_path@,
                payload.directory@,
                payload.copy_build_artifacts,
                temp_dir@,
                unix_ms,
            ),
            payload.runtime_config@,
        ),
        r.dll@ == spec_join(
            spec_effective_dir(
                config_path@,
                payload.directory@,
                payload.copy_build_artifacts,
                temp_dir@,
                unix_ms,
            ),
            payload.dll@,
        ),
{
    let directory = relative_dir(config_path, payload.directory.as_str());
    if payload.copy_build_artifacts {
        let name = temp_filename(unix_ms);
        let staged = join(temp_dir, name.as_str());
        let runtime_config = join(staged.as_str(), payload.runtime_config.as_str());
        let dll = join(staged.as_str(), payload.dll.as_str());
        PayloadPlan { directory, staged: Some(staged), runtime_config, dll }
    } else {
        let runtime_config = join(directory.as_str(), payload.runtime_config.as_str());
        let dll = join(directory.as_str(), payload.dll.as_str());
        PayloadPlan { directory, staged: None, runtime_config, dll }
    }
}

} // verus!
