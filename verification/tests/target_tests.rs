use kolibri_pal::target_spec::{Arch, Cc, CrtObjects, LinkerFlavor, LinkerScript, Lld, Os, opts, target};

#[test]
fn shared_options() {
    let o = opts();
    assert_eq!(o.os, Os::Kolibri);
    assert_eq!(o.cpu, "pentium");
    assert_eq!(o.max_atomic_width, Some(32));
    assert!(o.singlethread && !o.has_thread_local && !o.dynamic_linking && !o.plt_by_default);
    assert_eq!(o.pre_link_objects, CrtObjects::PreKolibri);
    assert_eq!(o.post_link_objects_self_contained, CrtObjects::PostKolibri);
    assert_eq!(o.linker, "ld.lld");
    assert_eq!(o.linker_flavor, LinkerFlavor { cc: Cc::No, lld: Lld::Yes });
    assert_eq!(o.exe_suffix, ".kex");
    assert!(o.pre_link_args.is_empty());
    assert_eq!(o.link_script, None);
}

#[test]
fn i586_target() {
    let t = target();
    assert_eq!(t.llvm_target, "i586-unknown-kolibri");
    assert_eq!(t.pointer_width, 32);
    assert_eq!(t.arch, Arch::X86);
    assert_eq!(t.metadata.tier, Some(1));
    assert_eq!(t.metadata.std, Some(false));
    assert!(t.data_layout.starts_with("e-m:e-p:32:32"));
    assert_eq!(t.options.pre_link_args, vec![(LinkerFlavor { cc: Cc::Yes, lld: Lld::No }, vec!["-m32", "-nostdlib"])]);
    assert_eq!(t.options.link_script, Some(LinkerScript::I586Kolibri));
    assert_eq!(t.options.exe_suffix, ".kex");
}

#[test]
fn i586_target_keeps_the_shared_options() {
    let t = target();
    let o = opts();
    assert!(t.options.singlethread && !t.options.dynamic_linking && !t.options.has_thread_local);
    assert_eq!(t.options.os, o.os);
    assert_eq!(t.options.cpu, o.cpu);
    assert_eq!(t.options.max_atomic_width, o.max_atomic_width);
    assert_eq!(t.options.linker, o.linker);
    assert_eq!(t.options.linker_flavor, o.linker_flavor);
    assert_eq!(t.options.pre_link_objects, o.pre_link_objects);
}
