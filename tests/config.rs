use fleet::config::{
    mac_link_arg, synthesize, write_failure_message, Channel, PlatformTarget, ProfileValues,
    ToolchainFacts,
};

fn nothing_found() -> ToolchainFacts {
    ToolchainFacts {
        channel: Channel::Stable,
        cache_path: None,
        unix_linker_path: None,
        c_compiler_path: None,
        mac_linker_path: None,
    }
}

fn s(v: &[&str]) -> Vec<String> {
    v.iter().map(|x| x.to_string()).collect()
}

#[test]
fn no_accelerators_linux() {
    let c = synthesize(nothing_found());
    assert_eq!(c.build.rustc_wrapper, None);
    assert_eq!(
        c.target.linux.rustflags,
        s(&["-Clink-arg=-fuse-ld=lld", "-Zshare-generics=y"])
    );
    assert_eq!(c.target.linux.linker, None);
    assert_eq!(c.target.windows.rustflags, s(&["-Zshare-generics=y"]));
    assert_eq!(c.target.windows.linker, None);
    assert_eq!(
        c.target.mac.rustflags,
        s(&["-Zshare-generics=y", "-Csplit-debuginfo=unpacked"])
    );
    assert_eq!(c.target.mac.linker, None);
}

#[test]
fn cache_and_mac_linker_found() {
    let mut f = nothing_found();
    f.cache_path = Some("/home/u/.cargo/bin/sccache".to_string());
    f.mac_linker_path = Some("/usr/bin/zld".to_string());
    let c = synthesize(f);
    assert_eq!(
        c.build.rustc_wrapper,
        Some("/home/u/.cargo/bin/sccache".to_string())
    );
    assert_eq!(
        c.target.mac.rustflags,
        s(&[
            "-Zshare-generics=y",
            "-Csplit-debuginfo=unpacked",
            "link-arg=-fuse-ld=/usr/bin/zld"
        ])
    );
    assert_eq!(c.target.mac.linker, None);
}

#[test]
fn linkers_fill_linker_fields() {
    let mut f = nothing_found();
    f.unix_linker_path = Some("/usr/bin/lld".to_string());
    f.c_compiler_path = Some("/usr/bin/clang".to_string());
    let c = synthesize(f);
    assert_eq!(c.target.linux.linker, Some("/usr/bin/clang".to_string()));
    assert_eq!(c.target.windows.linker, Some("/usr/bin/lld".to_string()));
    assert_eq!(c.target.mac.rustflags.len(), 2);
}

#[test]
fn every_target_has_an_entry() {
    let c = synthesize(nothing_found());
    for p in [
        PlatformTarget::LinuxGnu,
        PlatformTarget::WindowsMsvc,
        PlatformTarget::MacDarwin,
    ] {
        assert_eq!(c.target.entry(p).rustflags[..p.default_flags().len()], p.default_flags()[..]);
    }
}

#[test]
fn profiles_are_fixed() {
    let mut f = nothing_found();
    f.channel = Channel::Nightly;
    f.cache_path = Some("/x/sccache".to_string());
    let c = synthesize(f);
    assert_eq!(
        c.profile.release,
        ProfileValues { opt_level: 3, debug: 0, incremental: false, codegen_units: 256 }
    );
    assert_eq!(
        c.profile.dev,
        ProfileValues { opt_level: 0, debug: 2, incremental: true, codegen_units: 512 }
    );
    assert_eq!(c.profile.dev, ProfileValues::dev());
    assert_eq!(c.profile.release, ProfileValues::release());
}

#[test]
fn synthesis_is_deterministic() {
    let mut f = nothing_found();
    f.cache_path = Some("/c".to_string());
    f.mac_linker_path = Some("/z".to_string());
    let a = synthesize(f.clone());
    let b = synthesize(f);
    assert_eq!(format!("{:?}", a), format!("{:?}", b));
}

#[test]
fn triples() {
    assert_eq!(PlatformTarget::LinuxGnu.triple(), "x86_64-unknown-linux-gnu");
    assert_eq!(PlatformTarget::WindowsMsvc.triple(), "x86_64-pc-windows-msvc");
    assert_eq!(PlatformTarget::MacDarwin.triple(), "x86_64-apple-darwin");
}

#[test]
fn link_arg_names_linker() {
    assert_eq!(mac_link_arg(&"/opt/zld".to_string()), "link-arg=-fuse-ld=/opt/zld");
}

#[test]
fn write_failure_names_cause() {
    let m = write_failure_message(&"No such file or directory (os error 2)".to_string());
    assert_eq!(
        m,
        "\x1b[31merror\x1b[0m: failed to write configuration: No such file or directory (os error 2)"
    );
}
