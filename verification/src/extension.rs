//! The companion editor extension's platform decisions: which binary name
//! and release asset belong to a platform. Downloading, installing and
//! launching the server binary are deployment concerns outside the library.

use vstd::prelude::*;
use vstd::string::{StringExecFns, StrSliceExecFns};

verus! {

#[derive(Debug, Clone, Copy, PartialEq, Eq, Structural)]
pub enum Os {
    Mac,
    Linux,
    Windows,
}

#[derive(Debug, Clone, Copy, PartialEq, Eq, Structural)]
pub enum Architecture {
    Aarch64,
    X86,
    X8664,
}

/// The server binary's file name on a platform.
pub fn bin_name(platform: (Os, Architecture)) -> (r: &'static str)
    ensures
        platform.0 is Windows ==> r@ == "todo-highlight-lsp.ext"@,
        !(platform.0 is Windows) ==> r@ == "todo-highlight-lsp"@,
{
    match platform {
        (Os::Windows, _) => "todo-highlight-lsp.ext",
        _ => "todo-highlight-lsp",
    }
}

/// The operating-system token inside a release asset's name.
pub open spec fn os_token(os: Os) -> Seq<char> {
    match os {
        Os::Mac => "darwin"@,
        Os::Linux => "linux"@,
        Os::Windows => "windows"@,
    }
}

/// The architecture token inside a release asset's name.
pub open spec fn arch_token(arch: Architecture) -> Seq<char> {
    match arch {
        Architecture::Aarch64 => "arm64"@,
        Architecture::X86 => "amd64"@,
        Architecture::X8664 => "amd64"@,
    }
}

/// The archive extension of a platform's release asset.
pub open spec fn ext_token(os: Os) -> Seq<char> {
    match os {
        Os::Windows => "zip"@,
        _ => "tar.gz"@,
    }
}

/// The name of the release asset for a platform.
pub fn asset_name(os: Os, arch: Architecture) -> (r: String)
    ensures
        r@ == "todo-highlight-lsp"@ + "-"@ + os_token(os) + "-"@ + arch_token(arch) + "."@
            + ext_token(os),
{
    let mut out = String::from_str("todo-highlight-lsp");
    out.append("-");
    match os {
        Os::Mac => out.append("darwin"),
        Os::Linux => out.append("linux"),
        Os::Windows => out.append("windows"),
    }
    out.append("-");
    match arch {
        Architecture::Aarch64 => out.append("arm64"),
        Architecture::X86 => out.append("amd64"),
        Architecture::X8664 => out.append("amd64"),
    }
    out.append(".");
    match os {
        Os::Windows => out.append("zip"),
        _ => out.append("tar.gz"),
    }
    out
}

/// The directory one release version unpacks into.
pub fn version_dir(version: &str) -> (r: String)
    ensures
        r@ == "todo-highlight-lsp"@ + "-"@ + version@,
{
    let mut out = String::from_str("todo-highlight-lsp");
    out.append("-");
    out.append(version);
    out
}

/// Where one release version's server binary sits.
pub fn version_binary_path(version: &str, platform: (Os, Architecture)) -> (r: String)
    ensures
        platform.0 is Windows ==> r@ == "todo-highlight-lsp"@ + "-"@ + version@ + "/"@
            + "todo-highlight-lsp.ext"@,
        !(platform.0 is Windows) ==> r@ == "todo-highlight-lsp"@ + "-"@ + version@ + "/"@
            + "todo-highlight-lsp"@,
{
    let mut out = version_dir(version);
    out.append("/");
    out.append(bin_name(platform));
    out
}

/// The extension's state: the server binary's path once one was found.
#[derive(Debug)]
pub struct TodoHighlightExtension {
    pub cached_binary_path: Option<String>,
}

impl TodoHighlightExtension {
    pub fn new() -> (r: Self)
        ensures
            r.cached_binary_path is None,
    {
        TodoHighlightExtension { cached_binary_path: None }
    }
}

impl Default for TodoHighlightExtension {
    fn default() -> (r: Self)
        ensures
            r.cached_binary_path is None,
    {
        TodoHighlightExtension { cached_binary_path: None }
    }
}

} // verus!
