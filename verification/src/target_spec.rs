//! The compiler's description of the `i586-unknown-kolibri` target: the options that differ
//! from the defaults, and the target record built on them.
use vstd::prelude::*;

verus! {

#[derive(Debug, Clone, Copy, PartialEq, Eq, Structural)]
pub enum Os {
    Kolibri,
}

#[derive(Debug, Clone, Copy, PartialEq, Eq, Structural)]
pub enum RelocModel {
    Static,
}

#[derive(Debug, Clone, Copy, PartialEq, Eq, Structural)]
pub enum RelroLevel {
    Off,
}

#[derive(Debug, Clone, Copy, PartialEq, Eq, Structural)]
pub enum PanicStrategy {
    Abort,
}

#[derive(Debug, Clone, Copy, PartialEq, Eq, Structural)]
pub enum StackProbeType {
    NoProbes,
}

/// Whether the linker is driven through a C compiler.
#[derive(Debug, Clone, Copy, PartialEq, Eq, Structural)]
pub enum Cc {
    Yes,
    No,
}

/// Whether the linker is LLD.
#[derive(Debug, Clone, Copy, PartialEq, Eq, Structural)]
pub enum Lld {
    Yes,
    No,
}

/// A GNU-style linker, with or without a C compiler in front, LLD or not.
#[derive(Debug, Clone, Copy, PartialEq, Eq, Structural)]
pub struct LinkerFlavor {
    pub cc: Cc,
    pub lld: Lld,
}

/// The start-up and shut-down objects linked around a program for this system.
#[derive(Debug, Clone, Copy, PartialEq, Eq, Structural)]
pub enum CrtObjects {
    PreKolibri,
    PostKolibri,
}

#[derive(Debug, Clone, Copy, PartialEq, Eq, Structural)]
pub enum Arch {
    X86,
}

/// The linker script of the target, bundled as `i586_unknown_kolibri.ld`.
#[derive(Debug, Clone, Copy, PartialEq, Eq, Structural)]
pub enum LinkerScript {
    I586Kolibri,
}

/// Options of the KolibriOS targets that differ from the defaults.
#[derive(Debug, Clone, PartialEq, Eq)]
pub struct TargetOptions {
    pub os: Os,
    pub cpu: &'static str,
    pub plt_by_default: bool,
    pub max_atomic_width: Option<u64>,
    pub dynamic_linking: bool,
    pub relocation_model: RelocModel,
    pub relro_level: RelroLevel,
    pub panic_strategy: PanicStrategy,
    pub stack_probes: StackProbeType,
    pub singlethread: bool,
    pub has_thread_local: bool,
    pub pre_link_objects: CrtObjects,
    pub post_link_objects: CrtObjects,
    pub pre_link_objects_self_contained: CrtObjects,
    pub post_link_objects_self_contained: CrtObjects,
    pub linker: &'static str,
    pub linker_flavor: LinkerFlavor,
    pub exe_suffix: &'static str,
    /// Arguments put before the objects when linking with a given flavor.
    pub pre_link_args: Vec<(LinkerFlavor, Vec<&'static str>)>,
    pub link_script: Option<LinkerScript>,
}

/// Metadata of a target.
#[derive(Debug, Clone, Copy, PartialEq, Eq)]
pub struct TargetMetadata {
    pub description: Option<&'static str>,
    pub tier: Option<u64>,
    pub host_tools: Option<bool>,
    pub std: Option<bool>,
}

/// A target: its LLVM name, metadata, pointer width, data layout, architecture and options.
#[derive(Debug, Clone, PartialEq, Eq)]
pub struct Target {
    pub llvm_target: &'static str,
    pub metadata: TargetMetadata,
    pub pointer_width: u16,
    pub data_layout: &'static str,
    pub arch: Arch,
    pub options: TargetOptions,
}

/// The options that the KolibriOS targets share, besides the link arguments and the linker
/// script.
pub open spec fn kolibri_options(o: TargetOptions) -> bool {
    &&& o.os == Os::Kolibri
    &&& o.cpu == "pentium"
    &&& !o.plt_by_default
    &&& o.max_atomic_width == Some(32u64)
    &&& !o.dynamic_linking
    &&& o.relocation_model == RelocModel::Static
    &&& o.relro_level == RelroLevel::Off
    &&& o.panic_strategy == PanicStrategy::Abort
    &&& o.stack_probes == StackProbeType::NoProbes
    &&& o.singlethread
    &&& !o.has_thread_local
    &&& o.pre_link_objects == CrtObjects::PreKolibri
    &&& o.post_link_objects == CrtObjects::PostKolibri
    &&& o.pre_link_objects_self_contained == CrtObjects::PreKolibri
    &&& o.post_link_objects_self_contained == CrtObjects::PostKolibri
    &&& o.linker == "ld.lld"
    &&& o.linker_flavor == (LinkerFlavor { cc: Cc::No, lld: Lld::Yes })
    &&& o.exe_suffix == ".kex"
}

/// The options shared by the KolibriOS targets: a static, single-threaded Pentium target
/// without thread-locals that aborts on panic, links with `ld.lld` as a GNU linker, and
/// names executables `.kex`.
pub fn opts() -> (o: TargetOptions)
    ensures
        kolibri_options(o),
        o.pre_link_args@.len() == 0,
        o.link_script.is_none(),
{
    TargetOptions {
        os: Os::Kolibri,
        cpu: "pentium",
        plt_by_default: false,
        max_atomic_width: Some(32),
        dynamic_linking: false,
        relocation_model: RelocModel::Static,
        relro_level: RelroLevel::Off,
        panic_strategy: PanicStrategy::Abort,
        stack_probes: StackProbeType::NoProbes,
        singlethread: true,
        has_thread_local: false,
        pre_link_objects: CrtObjects::PreKolibri,
        post_link_objects: CrtObjects::PostKolibri,
        pre_link_objects_self_contained: CrtObjects::PreKolibri,
        post_link_objects_self_contained: CrtObjects::PostKolibri,
        linker: "ld.lld",
        linker_flavor: LinkerFlavor { cc: Cc::No, lld: Lld::Yes },
        exe_suffix: ".kex",
        pre_link_args: Vec::new(),
        link_script: None,
    }
}

/// The `i586-unknown-kolibri` target: the shared options, with `-m32 -nostdlib` before the
/// objects when a C compiler drives the GNU linker, and the bundled linker script; a 32-bit
/// x86 target of tier 1 without host tools or std.
pub fn target() -> (t: Target)
    ensures
        t.llvm_target == "i586-unknown-kolibri",
        t.metadata == (TargetMetadata { description: None, tier: Some(1u64), host_tools: Some(false), std: Some(false) }),
        t.pointer_width == 32,
        t.data_layout == "e-m:e-p:32:32-p270:32:32-p271:32:32-p272:64:64-i128:128-f64:32:64-f80:32-n8:16:32-S128",
        t.arch == Arch::X86,
        kolibri_options(t.options),
        t.options.pre_link_args@.len() == 1,
        t.options.pre_link_args@[0].0 == (LinkerFlavor { cc: Cc::Yes, lld: Lld::No }),
        t.options.pre_link_args@[0].1@ == seq!["-m32", "-nostdlib"],
        t.options.link_script == Some(LinkerScript::I586Kolibri),
{
    let mut base = opts();
    let mut args: Vec<&'static str> = Vec::new();
    args.push("-m32");
    args.push("-nostdlib");
    base.pre_link_args.push((LinkerFlavor { cc: Cc::Yes, lld: Lld::No }, args));
    base.link_script = Some(LinkerScript::I586Kolibri);
    proof {
        assert(base.pre_link_args@[0].1@ =~= seq!["-m32", "-nostdlib"]);
    }
    Target {
        llvm_target: "i586-unknown-kolibri",
        metadata: TargetMetadata { description: None, tier: Some(1), host_tools: Some(false), std: Some(false) },
        pointer_width: 32,
        data_layout: "e-m:e-p:32:32-p270:32:32-p271:32:32-p272:64:64-i128:128-f64:32:64-f80:32-n8:16:32-S128",
        arch: Arch::X86,
        options: base,
    }
}

} // verus!
