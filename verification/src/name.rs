//! Pipe names: the path a name stands for, the path a target names, and the
//! origin a pipe gives its Streams.

use vstd::prelude::*;

use crate::host::{Host, HostView, System};
use crate::path::{displayed, path_of_text, PipePath, Unit};
use crate::text::{contains_char, decimal, decimal_digits, replace_char, replaced, strip_prefix};

verus! {

/// Whether `name` already is a path: it holds a separator of either system.
pub open spec fn is_path(name: Seq<char>) -> bool {
    name.contains('/') || name.contains('\\')
}

/// The entry called `name` of the directory `dir`.
pub open spec fn entry_of(dir: Seq<Unit>, name: Seq<char>) -> Seq<Unit> {
    if dir.len() == 0 || dir.last() == Unit::Char('/') {
        dir + path_of_text(name)
    } else {
        dir.push(Unit::Char('/')) + path_of_text(name)
    }
}

/// The path of the pipe called `name`: `name` itself where it is a path, the
/// object under `\\.\pipe\` on Windows otherwise, and a file in the temporary
/// directory on Unix otherwise.
pub open spec fn pipe_path(name: Seq<char>, host: HostView) -> Seq<Unit> {
    if is_path(name) {
        path_of_text(name)
    } else {
        match host.system {
            System::Windows => path_of_text("\\\\.\\pipe\\"@ + name),
            System::Unix => entry_of(host.temp_dir, name),
        }
    }
}

/// The path a target names: that of the pipe called by what follows
/// `pipe://`, or by the whole target where it does not begin so.
pub open spec fn named_path(target: Seq<char>, host: HostView) -> Seq<Unit> {
    if "pipe://"@.is_prefix_of(target) {
        pipe_path(target.skip("pipe://"@.len() as int), host)
    } else {
        pipe_path(target, host)
    }
}

/// The pipe's name inside an origin: the path as it is displayed, with forward
/// slashes, without the prefix that every Windows pipe has.
pub open spec fn origin_name(path: Seq<Unit>) -> Seq<char> {
    let text = replaced(displayed(path), '\\', '/');
    if "//./pipe/"@.is_prefix_of(text) {
        text.skip("//./pipe/"@.len() as int)
    } else {
        text
    }
}

/// The origin of what arrives over the pipe at `path`.
pub open spec fn origin_uri(path: Seq<Unit>) -> Seq<char> {
    let name = origin_name(path);
    if name.len() > 0 && name[0] == '/' {
        "pipe://"@ + name
    } else {
        "pipe://./"@ + name
    }
}

/// The name of the loopback pipe number `ticket` of the process `process`.
pub open spec fn loopback_name(process: u32, ticket: u32) -> Seq<char> {
    "xmip-loopback-"@ + decimal_digits(process as nat) + "-"@ + decimal_digits(ticket as nat)
}

/// The operating system's path for a pipe called `name`: as given where it
/// already is a path, `\\.\pipe\<name>` on Windows otherwise, and a file in
/// the temporary directory on Unix otherwise.
#[must_use]
pub fn path_of(name: &str, host: &Host) -> (path: PipePath)
    ensures
        path@ == pipe_path(name@, host@),
{
    if contains_char(name, '/') || contains_char(name, '\\') {
        return PipePath::from_text(name);
    }
    match host.system {
        System::Windows => PipePath::from_text("\\\\.\\pipe\\".to_owned().concat(name).as_str()),
        System::Unix => entry(&host.temp_dir, name),
    }
}

/// The entry called `name` of the directory `dir`.
fn entry(dir: &PipePath, name: &str) -> (path: PipePath)
    ensures
        path@ == entry_of(dir@, name@),
{
    let mut path = dir.clone();
    let length: usize = dir.units.len();
    if length > 0 {
        match dir.units[length - 1] {
            Unit::Char('/') => {},
            _ => path.units.push(Unit::Char('/')),
        }
    }
    path.append(name);
    path
}

/// The path a target names: `pipe://` and a name or path, or either bare.
#[must_use]
pub fn target_path(target: &str, host: &Host) -> (path: PipePath)
    ensures
        path@ == named_path(target@, host@),
{
    match strip_prefix(target, "pipe://") {
        Some(name) => path_of(name, host),
        None => path_of(target, host),
    }
}

/// `pipe://` and the pipe's name as it is displayed, forward slashes throughout.
#[must_use]
pub fn origin_of(path: &PipePath) -> (origin: String)
    ensures
        origin@ == origin_uri(path@),
{
    let text = replace_char(path.display().as_str(), '\\', '/');
    let name = match strip_prefix(text.as_str(), "//./pipe/") {
        Some(name) => name,
        None => text.as_str(),
    };
    if !name.is_empty() && name.get_char(0) == '/' {
        "pipe://".to_owned().concat(name)
    } else {
        "pipe://./".to_owned().concat(name)
    }
}

/// A pipe name no other far end has: the pipe is the address, so two rounds at
/// once need two pipes. The caller takes `process` from the system and a new
/// `ticket` for each pipe.
pub fn fresh_name(process: u32, ticket: u32) -> (name: String)
    ensures
        name@ == loopback_name(process, ticket),
{
    let mut name = "xmip-loopback-".to_owned();
    name.append(decimal(process as u128).as_str());
    name.append("-");
    name.append(decimal(ticket as u128).as_str());
    name
}

} // verus!
