//! The checks that a probe of the machine runs, and the remedies that are
//! listed when a build fails.
use vstd::prelude::*;
use vstd::string::*;

use crate::config::{opt_str, strs, Channel, ToolchainFacts};
use crate::style::{paint, painted, Hue};

verus! {

/// The family of the platform that the tool runs on; it decides which linker
/// checks run.
#[derive(Clone, Copy, Debug, PartialEq, Eq, Structural)]
pub enum PlatformFamily {
    Unix,
    Mac,
    Other,
}

/// One requirement of a fast build.
#[derive(Clone, Copy, Debug, PartialEq, Eq, Structural)]
pub enum Check {
    /// The active compiler is a nightly one.
    CompilerChannel,
    /// `sccache` is installed under `~/.cargo/bin`.
    CacheTool,
    /// `lld` is installed.
    UnixLinker,
    /// `clang` is installed.
    CCompiler,
    /// `zld` is installed.
    MacLinker,
}

/// The checks that run on a platform family, in the order they run: the
/// compiler channel, the cache, then that family's linker checks alone.
pub open spec fn spec_checks(family: PlatformFamily) -> Seq<Check> {
    match family {
        PlatformFamily::Unix => seq![Check::CompilerChannel, Check::CacheTool, Check::UnixLinker, Check::CCompiler],
        PlatformFamily::Mac => seq![Check::CompilerChannel, Check::CacheTool, Check::MacLinker],
        PlatformFamily::Other => seq![Check::CompilerChannel, Check::CacheTool],
    }
}

/// The checks that run on a platform family, in order.
pub fn checks_for(family: PlatformFamily) -> (r: Vec<Check>)
    ensures
        r@ == spec_checks(family),
{
    let mut r: Vec<Check> = Vec::new();
    r.push(Check::CompilerChannel);
    r.push(Check::CacheTool);
    match family {
        PlatformFamily::Unix => {
            r.push(Check::UnixLinker);
            r.push(Check::CCompiler);
        },
        PlatformFamily::Mac => {
            r.push(Check::MacLinker);
        },
        PlatformFamily::Other => {},
    }
    assert(r@ =~= spec_checks(family));
    r
}

/// Whether a check passes on what the probe found.
pub open spec fn spec_passes(f: ToolchainFacts, c: Check) -> bool {
    match c {
        Check::CompilerChannel => f.channel == Channel::Nightly,
        Check::CacheTool => f.cache_path is Some,
        Check::UnixLinker => f.unix_linker_path is Some,
        Check::CCompiler => f.c_compiler_path is Some,
        Check::MacLinker => f.mac_linker_path is Some,
    }
}

/// The hint for a tool that is missing.
pub open spec fn spec_missing_tool_hint(tool: Seq<char>, remedy: Seq<char>) -> Seq<char> {
    painted(Hue::Yellow, "=>"@) + " You have not installed "@ + painted(Hue::Purple, tool)
        + ". Run "@ + painted(Hue::Cyan, remedy) + "."@
}

/// The one line printed for a failing check: what is missing and the command
/// that installs or selects it.
pub open spec fn spec_hint(c: Check) -> Seq<char> {
    match c {
        Check::CompilerChannel => painted(Hue::Yellow, "=>"@) + " You are not using a "@
            + painted(Hue::Purple, "`nightly`"@) + " compiler. Run "@
            + painted(Hue::Cyan, "`rustup default nightly`"@) + "."@,
        Check::CacheTool => spec_missing_tool_hint("`sccache`"@, "`cargo install sccache`"@),
        Check::UnixLinker => spec_missing_tool_hint("`lld`"@, "`sudo apt install lld`"@),
        Check::CCompiler => spec_missing_tool_hint("`clang`"@, "`sudo apt install clang`"@),
        Check::MacLinker => spec_missing_tool_hint("`zld`"@, "`brew install zld`"@),
    }
}

/// The hints of the failing checks among `cs`, in the order of `cs`.
pub open spec fn spec_report(f: ToolchainFacts, cs: Seq<Check>) -> Seq<Seq<char>>
    decreases cs.len(),
{
    if cs.len() == 0 {
        Seq::empty()
    } else {
        let rest = spec_report(f, cs.drop_last());
        if spec_passes(f, cs.last()) {
            rest
        } else {
            rest.push(spec_hint(cs.last()))
        }
    }
}

/// The number of failing checks among `cs`.
pub open spec fn spec_failing_count(f: ToolchainFacts, cs: Seq<Check>) -> nat
    decreases cs.len(),
{
    if cs.len() == 0 {
        0
    } else {
        spec_failing_count(f, cs.drop_last()) + if spec_passes(f, cs.last()) { 0nat } else { 1nat }
    }
}

fn missing_tool_hint(tool: &str, remedy: &str) -> (r: String)
    ensures
        r@ == spec_missing_tool_hint(tool@, remedy@),
{
    paint(Hue::Yellow, "=>").concat(" You have not installed ").concat(
        paint(Hue::Purple, tool).as_str(),
    ).concat(". Run ").concat(paint(Hue::Cyan, remedy).as_str()).concat(".")
}

impl Check {
    /// Whether this check passes on what the probe found.
    pub fn passes(&self, f: &ToolchainFacts) -> (r: bool)
        ensures
            r == spec_passes(*f, *self),
    {
        match self {
            Check::CompilerChannel => f.channel == Channel::Nightly,
            Check::CacheTool => f.cache_path.is_some(),
            Check::UnixLinker => f.unix_linker_path.is_some(),
            Check::CCompiler => f.c_compiler_path.is_some(),
            Check::MacLinker => f.mac_linker_path.is_some(),
        }
    }

    /// The line printed when this check fails.
    pub fn hint(&self) -> (r: String)
        ensures
            r@ == spec_hint(*self),
    {
        match self {
            Check::CompilerChannel => paint(Hue::Yellow, "=>").concat(" You are not using a ").concat(
                paint(Hue::Purple, "`nightly`").as_str(),
            ).concat(" compiler. Run ").concat(paint(Hue::Cyan, "`rustup default nightly`").as_str()).concat(
                ".",
            ),
            Check::CacheTool => missing_tool_hint("`sccache`", "`cargo install sccache`"),
            Check::UnixLinker => missing_tool_hint("`lld`", "`sudo apt install lld`"),
            Check::CCompiler => missing_tool_hint("`clang`", "`sudo apt install clang`"),
            Check::MacLinker => missing_tool_hint("`zld`", "`brew install zld`"),
        }
    }

    /// The fixed absolute path that this check looks at; the channel and the
    /// cache have none (the cache lies under the home directory).
    pub fn fixed_path(&self) -> (r: Option<String>)
        ensures
            opt_str(r) == spec_fixed_path(*self),
    {
        match self {
            Check::UnixLinker => Some(String::from_str("/usr/bin/lld")),
            Check::CCompiler => Some(String::from_str("/usr/bin/clang")),
            Check::MacLinker => Some(String::from_str("/usr/bin/zld")),
            _ => None,
        }
    }
}

pub open spec fn spec_fixed_path(c: Check) -> Option<Seq<char>> {
    match c {
        Check::UnixLinker => Some("/usr/bin/lld"@),
        Check::CCompiler => Some("/usr/bin/clang"@),
        Check::MacLinker => Some("/usr/bin/zld"@),
        _ => None,
    }
}

/// Where the cache is installed, relative to the home directory.
pub fn cache_subpath() -> (r: String)
    ensures
        r@ == ".cargo/bin/sccache"@,
{
    String::from_str(".cargo/bin/sccache")
}

/// The facts of a probe on the given family: paths that only another family
/// checks are dropped, so that one family's linker checks alone count.
pub fn facts_for(
    family: PlatformFamily,
    channel: Channel,
    cache_path: Option<String>,
    unix_linker_path: Option<String>,
    c_compiler_path: Option<String>,
    mac_linker_path: Option<String>,
) -> (r: ToolchainFacts)
    ensures
        r.channel == channel,
        r.cache_path == cache_path,
        r.unix_linker_path == (if family == PlatformFamily::Unix { unix_linker_path } else { None }),
        r.c_compiler_path == (if family == PlatformFamily::Unix { c_compiler_path } else { None }),
        r.mac_linker_path == (if family == PlatformFamily::Mac { mac_linker_path } else { None }),
{
    match family {
        PlatformFamily::Unix => ToolchainFacts {
            channel,
            cache_path,
            unix_linker_path,
            c_compiler_path,
            mac_linker_path: None,
        },
        PlatformFamily::Mac => ToolchainFacts {
            channel,
            cache_path,
            unix_linker_path: None,
            c_compiler_path: None,
            mac_linker_path,
        },
        PlatformFamily::Other => ToolchainFacts {
            channel,
            cache_path,
            unix_linker_path: None,
            c_compiler_path: None,
            mac_linker_path: None,
        },
    }
}

/// The lines printed after a failed build: one hint for each check of the
/// family that fails now, in the order the checks run.
pub fn failure_report(f: &ToolchainFacts, family: PlatformFamily) -> (r: Vec<String>)
    ensures
        strs(r@) == spec_report(*f, spec_checks(family)),
        r@.len() == spec_failing_count(*f, spec_checks(family)),
{
    let checks = checks_for(family);
    let mut r: Vec<String> = Vec::new();
    let mut i: usize = 0;
    while i < checks.len()
        invariant
            checks@ == spec_checks(family),
            i <= checks@.len(),
            strs(r@) == spec_report(*f, checks@.take(i as int)),
            r@.len() == spec_failing_count(*f, checks@.take(i as int)),
        decreases checks@.len() - i,
    {
        let c = checks[i];
        let ghost before = r@;
        assert(checks@.take(i as int + 1).drop_last() =~= checks@.take(i as int));
        if !c.passes(f) {
            r.push(c.hint());
            assert(strs(r@) =~= strs(before).push(spec_hint(c)));
        }
        i = i + 1;
    }
    assert(checks@.take(i as int) =~= checks@);
    r
}

} // verus!
