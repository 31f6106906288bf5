//! The configuration document that Cargo reads from `.cargo/config.toml`, and
//! how it is synthesized from what was found on the machine.
use vstd::prelude::*;
use vstd::string::*;

use crate::style::{paint, painted, Hue};

verus! {

/// Release channel of the active compiler.
#[derive(Clone, Copy, Debug, PartialEq, Eq, Structural)]
pub enum Channel {
    Stable,
    Beta,
    Nightly,
    Unknown,
}

/// What a probe of the machine found. A path is present only where the tool
/// exists there.
#[derive(Clone, Debug)]
pub struct ToolchainFacts {
    pub channel: Channel,
    /// The compilation cache (`sccache`).
    pub cache_path: Option<String>,
    /// The Unix fast linker (`lld`).
    pub unix_linker_path: Option<String>,
    /// The C compiler used as link driver (`clang`).
    pub c_compiler_path: Option<String>,
    /// The Mac fast linker (`zld`).
    pub mac_linker_path: Option<String>,
}

/// The platforms that the configuration has a section for.
#[derive(Clone, Copy, Debug, PartialEq, Eq, Structural)]
pub enum PlatformTarget {
    LinuxGnu,
    WindowsMsvc,
    MacDarwin,
}

/// Settings of one Cargo profile.
#[derive(Clone, Copy, Debug, PartialEq, Eq, Structural)]
pub struct ProfileValues {
    pub opt_level: u8,
    pub debug: u8,
    pub incremental: bool,
    pub codegen_units: u16,
}

/// The `[profile]` table.
#[derive(Clone, Copy, Debug, PartialEq, Eq, Structural)]
pub struct Profile {
    pub dev: ProfileValues,
    pub release: ProfileValues,
}

/// The `[build]` table.
#[derive(Clone, Debug)]
pub struct Build {
    pub rustc_wrapper: Option<String>,
}

/// One `[target.<triple>]` table.
#[derive(Clone, Debug)]
pub struct TargetValues {
    pub rustflags: Vec<String>,
    pub linker: Option<String>,
}

/// The `[target]` table: one entry for each platform.
#[derive(Clone, Debug)]
pub struct Target {
    pub linux: TargetValues,
    pub windows: TargetValues,
    pub mac: TargetValues,
}

/// The whole configuration document.
#[derive(Clone, Debug)]
pub struct ConfigToml {
    pub build: Build,
    pub target: Target,
    pub profile: Profile,
}

pub open spec fn strs(v: Seq<String>) -> Seq<Seq<char>> {
    v.map_values(|s: String| s@)
}

pub open spec fn opt_str(o: Option<String>) -> Option<Seq<char>> {
    match o {
        Some(s) => Some(s@),
        None => None,
    }
}

/// The target triple under which Cargo looks for a platform's section.
pub open spec fn spec_triple(p: PlatformTarget) -> Seq<char> {
    match p {
        PlatformTarget::LinuxGnu => "x86_64-unknown-linux-gnu"@,
        PlatformTarget::WindowsMsvc => "x86_64-pc-windows-msvc"@,
        PlatformTarget::MacDarwin => "x86_64-apple-darwin"@,
    }
}

/// The flags that a platform's section holds whatever was found.
pub open spec fn spec_default_flags(p: PlatformTarget) -> Seq<Seq<char>> {
    match p {
        PlatformTarget::LinuxGnu => seq!["-Clink-arg=-fuse-ld=lld"@, "-Zshare-generics=y"@],
        PlatformTarget::WindowsMsvc => seq!["-Zshare-generics=y"@],
        PlatformTarget::MacDarwin => seq!["-Zshare-generics=y"@, "-Csplit-debuginfo=unpacked"@],
    }
}

/// The flag that makes the Mac linker the one that rustc uses.
pub open spec fn spec_mac_link_arg(zld: Seq<char>) -> Seq<char> {
    "link-arg=-fuse-ld="@ + zld
}

/// A platform's flags: the defaults, and on the Mac the link argument for a
/// Mac linker that was found.
pub open spec fn spec_flags(f: ToolchainFacts, p: PlatformTarget) -> Seq<Seq<char>> {
    match (p, f.mac_linker_path) {
        (PlatformTarget::MacDarwin, Some(zld)) => spec_default_flags(p).push(spec_mac_link_arg(zld@)),
        _ => spec_default_flags(p),
    }
}

/// A platform's linker: `clang` drives the link on Linux, `lld` links on
/// Windows, and the Mac section names none.
pub open spec fn spec_linker(f: ToolchainFacts, p: PlatformTarget) -> Option<Seq<char>> {
    match p {
        PlatformTarget::LinuxGnu => opt_str(f.c_compiler_path),
        PlatformTarget::WindowsMsvc => opt_str(f.unix_linker_path),
        PlatformTarget::MacDarwin => None,
    }
}

pub open spec fn spec_dev_profile() -> ProfileValues {
    ProfileValues { opt_level: 0, debug: 2, incremental: true, codegen_units: 512 }
}

pub open spec fn spec_release_profile() -> ProfileValues {
    ProfileValues { opt_level: 3, debug: 0, incremental: false, codegen_units: 256 }
}

/// A platform's section of the `[target]` table.
pub open spec fn spec_entry(t: Target, p: PlatformTarget) -> TargetValues {
    match p {
        PlatformTarget::LinuxGnu => t.linux,
        PlatformTarget::WindowsMsvc => t.windows,
        PlatformTarget::MacDarwin => t.mac,
    }
}

/// A section holds the given flags, in order, and the given linker.
pub open spec fn entry_is(v: TargetValues, flags: Seq<Seq<char>>, linker: Option<Seq<char>>) -> bool {
    strs(v.rustflags@) == flags && opt_str(v.linker) == linker
}

/// The configuration that the facts call for.
pub open spec fn describes(c: ConfigToml, f: ToolchainFacts) -> bool {
    &&& opt_str(c.build.rustc_wrapper) == opt_str(f.cache_path)
    &&& forall|p: PlatformTarget|
        #[trigger] entry_is(spec_entry(c.target, p), spec_flags(f, p), spec_linker(f, p))
    &&& c.profile.dev == spec_dev_profile()
    &&& c.profile.release == spec_release_profile()
}

impl PlatformTarget {
    /// The target triple that names this platform's section.
    pub fn triple(&self) -> (r: String)
        ensures
            r@ == spec_triple(*self),
    {
        match self {
            PlatformTarget::LinuxGnu => String::from_str("x86_64-unknown-linux-gnu"),
            PlatformTarget::WindowsMsvc => String::from_str("x86_64-pc-windows-msvc"),
            PlatformTarget::MacDarwin => String::from_str("x86_64-apple-darwin"),
        }
    }

    /// The flags that this platform's section holds whatever was found.
    pub fn default_flags(&self) -> (r: Vec<String>)
        ensures
            strs(r@) == spec_default_flags(*self),
    {
        let mut r: Vec<String> = Vec::new();
        match self {
            PlatformTarget::LinuxGnu => {
                r.push(String::from_str("-Clink-arg=-fuse-ld=lld"));
                r.push(String::from_str("-Zshare-generics=y"));
            },
            PlatformTarget::WindowsMsvc => {
                r.push(String::from_str("-Zshare-generics=y"));
            },
            PlatformTarget::MacDarwin => {
                r.push(String::from_str("-Zshare-generics=y"));
                r.push(String::from_str("-Csplit-debuginfo=unpacked"));
            },
        }
        assert(strs(r@) =~= spec_default_flags(*self));
        r
    }
}

impl ProfileValues {
    /// The `dev` profile: no optimisation, full debug info, fast rebuilds.
    pub fn dev() -> (r: ProfileValues)
        ensures
            r == spec_dev_profile(),
    {
        ProfileValues { opt_level: 0, debug: 2, incremental: true, codegen_units: 512 }
    }

    /// The `release` profile: full optimisation, no debug info, no incremental
    /// compilation.
    pub fn release() -> (r: ProfileValues)
        ensures
            r == spec_release_profile(),
    {
        ProfileValues { opt_level: 3, debug: 0, incremental: false, codegen_units: 256 }
    }
}

impl Target {
    /// The section of the given platform.
    pub fn entry(&self, p: PlatformTarget) -> (r: &TargetValues)
        ensures
            *r == spec_entry(*self, p),
    {
        match p {
            PlatformTarget::LinuxGnu => &self.linux,
            PlatformTarget::WindowsMsvc => &self.windows,
            PlatformTarget::MacDarwin => &self.mac,
        }
    }
}

/// The flag that makes the given Mac linker the one that rustc uses.
pub fn mac_link_arg(zld: &String) -> (r: String)
    ensures
        r@ == spec_mac_link_arg(zld@),
{
    String::from_str("link-arg=-fuse-ld=").concat(zld.as_str())
}

/// Builds the configuration for the given facts: the cache as rustc wrapper,
/// each platform's flags and linker, and the fixed profiles.
pub fn synthesize(facts: ToolchainFacts) -> (r: ConfigToml)
    ensures
        describes(r, facts),
{
    let mut mac_flags = PlatformTarget::MacDarwin.default_flags();
    match &facts.mac_linker_path {
        Some(zld) => {
            mac_flags.push(mac_link_arg(zld));
        },
        None => {},
    }
    let ghost f = facts;
    let r = ConfigToml {
        build: Build { rustc_wrapper: facts.cache_path },
        target: Target {
            linux: TargetValues {
                rustflags: PlatformTarget::LinuxGnu.default_flags(),
                linker: facts.c_compiler_path,
            },
            windows: TargetValues {
                rustflags: PlatformTarget::WindowsMsvc.default_flags(),
                linker: facts.unix_linker_path,
            },
            mac: TargetValues { rustflags: mac_flags, linker: None },
        },
        profile: Profile { dev: ProfileValues::dev(), release: ProfileValues::release() },
    };
    assert forall|p: PlatformTarget|
        #[trigger] entry_is(spec_entry(r.target, p), spec_flags(f, p), spec_linker(f, p)) by {
        if p == PlatformTarget::MacDarwin {
            assert(strs(r.target.mac.rustflags@) =~= spec_flags(f, p));
        }
    }
    r
}

/// Every platform has its section in a synthesized configuration, with the
/// platform's default flags first.
pub proof fn law_every_target_has_entry(c: ConfigToml, f: ToolchainFacts)
    requires
        describes(c, f),
    ensures
        forall|p: PlatformTarget|
            #![trigger spec_entry(c.target, p)]
            strs(spec_entry(c.target, p).rustflags@) == spec_flags(f, p)
                && opt_str(spec_entry(c.target, p).linker) == spec_linker(f, p)
                && spec_flags(f, p).take(spec_default_flags(p).len() as int) == spec_default_flags(p),
{
    assert forall|p: PlatformTarget| #![trigger spec_entry(c.target, p)]
        strs(spec_entry(c.target, p).rustflags@) == spec_flags(f, p)
            && opt_str(spec_entry(c.target, p).linker) == spec_linker(f, p)
            && spec_flags(f, p).take(spec_default_flags(p).len() as int) == spec_default_flags(p) by {
        assert(entry_is(spec_entry(c.target, p), spec_flags(f, p), spec_linker(f, p)));
        assert(spec_flags(f, p).take(spec_default_flags(p).len() as int) =~= spec_default_flags(p));
    }
}

/// The rustc wrapper is absent exactly when no cache was found, and is the
/// cache's path when one was.
pub proof fn law_wrapper_is_cache(c: ConfigToml, f: ToolchainFacts)
    requires
        describes(c, f),
    ensures
        f.cache_path is None <==> c.build.rustc_wrapper is None,
        f.cache_path is Some ==> c.build.rustc_wrapper->Some_0@ == f.cache_path->Some_0@,
{
}

/// The prefix that marks a flag choosing the link driver's linker.
pub open spec fn is_link_arg(flag: Seq<char>) -> bool {
    flag.len() >= 18 && flag.take(18) == "link-arg=-fuse-ld="@
}

/// The Mac section holds a link argument exactly when a Mac linker was found,
/// and then it is the last flag and names that linker; otherwise its flags
/// are the two defaults, in order.
pub proof fn law_mac_link_arg(c: ConfigToml, f: ToolchainFacts)
    requires
        describes(c, f),
    ensures
        (exists|i: int| 0 <= i < c.target.mac.rustflags@.len()
            && is_link_arg(#[trigger] c.target.mac.rustflags@[i]@)) <==> f.mac_linker_path is Some,
        f.mac_linker_path is Some ==> strs(c.target.mac.rustflags@) == seq![
            "-Zshare-generics=y"@,
            "-Csplit-debuginfo=unpacked"@,
            spec_mac_link_arg(f.mac_linker_path->Some_0@),
        ],
        f.mac_linker_path is None ==> strs(c.target.mac.rustflags@) == seq![
            "-Zshare-generics=y"@,
            "-Csplit-debuginfo=unpacked"@,
        ],
{
    let p = PlatformTarget::MacDarwin;
    assert(entry_is(spec_entry(c.target, p), spec_flags(f, p), spec_linker(f, p)));
    let flags = c.target.mac.rustflags@;
    assert(forall|i: int| 0 <= i < flags.len() ==> #[trigger] flags[i]@ == strs(flags)[i]);
    reveal_strlit("-Zshare-generics=y");
    reveal_strlit("-Csplit-debuginfo=unpacked");
    reveal_strlit("link-arg=-fuse-ld=");
    assert(!is_link_arg("-Zshare-generics=y"@)) by {
        assert("-Zshare-generics=y"@.take(18)[0] != "link-arg=-fuse-ld="@[0]);
    }
    assert(!is_link_arg("-Csplit-debuginfo=unpacked"@)) by {
        assert("-Csplit-debuginfo=unpacked"@.take(18)[0] != "link-arg=-fuse-ld="@[0]);
    }
    match f.mac_linker_path {
        Some(zld) => {
            assert(strs(flags) =~= seq![
                "-Zshare-generics=y"@,
                "-Csplit-debuginfo=unpacked"@,
                spec_mac_link_arg(zld@),
            ]);
            assert(flags.len() == 3);
            assert(flags[2]@ == spec_mac_link_arg(zld@));
            assert("link-arg=-fuse-ld="@.len() == 18);
            assert(spec_mac_link_arg(zld@).take(18) =~= "link-arg=-fuse-ld="@);
            assert(is_link_arg(flags[2]@));
        },
        None => {
            assert(strs(flags) =~= seq!["-Zshare-generics=y"@, "-Csplit-debuginfo=unpacked"@]);
            assert forall|i: int| 0 <= i < flags.len() implies !is_link_arg(#[trigger] flags[i]@) by {
                assert(flags[i]@ == strs(flags)[i]);
                assert(i == 0 || i == 1);
            }
        },
    }
}

/// Two configurations synthesized from the same facts are the same document:
/// same wrapper, same flags and linker for every platform, same profiles.
pub proof fn law_synthesis_deterministic(c1: ConfigToml, c2: ConfigToml, f: ToolchainFacts)
    requires
        describes(c1, f),
        describes(c2, f),
    ensures
        opt_str(c1.build.rustc_wrapper) == opt_str(c2.build.rustc_wrapper),
        forall|p: PlatformTarget|
            #![trigger spec_entry(c1.target, p), spec_entry(c2.target, p)]
            strs(spec_entry(c1.target, p).rustflags@) == strs(spec_entry(c2.target, p).rustflags@)
                && opt_str(spec_entry(c1.target, p).linker) == opt_str(spec_entry(c2.target, p).linker),
        c1.profile == c2.profile,
{
    assert forall|p: PlatformTarget| #![trigger spec_entry(c1.target, p), spec_entry(c2.target, p)]
        strs(spec_entry(c1.target, p).rustflags@) == strs(spec_entry(c2.target, p).rustflags@)
            && opt_str(spec_entry(c1.target, p).linker) == opt_str(spec_entry(c2.target, p).linker) by {
        assert(entry_is(spec_entry(c1.target, p), spec_flags(f, p), spec_linker(f, p)));
        assert(entry_is(spec_entry(c2.target, p), spec_flags(f, p), spec_linker(f, p)));
    }
}

/// The message printed when the configuration cannot be written.
pub open spec fn spec_write_failure_message(cause: Seq<char>) -> Seq<char> {
    painted(Hue::Red, "error"@) + ": failed to write configuration: "@ + cause
}

/// The message printed when the configuration cannot be written, with the
/// underlying cause.
pub fn write_failure_message(cause: &String) -> (r: String)
    ensures
        r@ == spec_write_failure_message(cause@),
{
    paint(Hue::Red, "error").concat(": failed to write configuration: ").concat(cause.as_str())
}

} // verus!
