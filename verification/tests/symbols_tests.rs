use ctd_core::symbols::{format_stack_trace, ModuleSymbols, ResolvedFrame, SymbolResolver};

#[test]
fn unresolved_frame_formats_correctly() {
    let frame = ResolvedFrame::unresolved("test.dll", 0x1234);
    assert_eq!(frame.format(), "test.dll+0x1234");
    assert!(!frame.is_resolved());
}

#[test]
fn resolved_frame_formats_with_function() {
    let frame = ResolvedFrame::resolved("test.dll", 0x1234, "MyFunction", None, None);
    assert_eq!(frame.format(), "test.dll+0x1234 (MyFunction)");
    assert!(frame.is_resolved());
}

#[test]
fn resolved_frame_formats_with_file_and_line() {
    let frame = ResolvedFrame::resolved(
        "test.dll",
        0x1234,
        "MyFunction",
        Some("src/main.cpp".into()),
        Some(42),
    );
    assert_eq!(frame.format(), "test.dll+0x1234 (MyFunction at src/main.cpp:42)");
}

#[test]
fn format_stack_trace_numbers_frames() {
    let frames = vec![
        ResolvedFrame::unresolved("a.dll", 0x100),
        ResolvedFrame::resolved("b.dll", 0x200, "Func", None, None),
    ];
    let trace = format_stack_trace(&frames);
    assert!(trace.contains("[0] a.dll+0x100"));
    assert!(trace.contains("[1] b.dll+0x200 (Func)"));
}

#[test]
fn resolver_creates_with_cache_dir() {
    let resolver = SymbolResolver::new("symcache");
    assert_eq!(resolver.cache_dir(), "symcache");
    assert_eq!(resolver.loaded_module_count(), 0);
}

#[test]
fn resolver_returns_unresolved_for_unknown_module() {
    let resolver = SymbolResolver::new("symcache");
    let frame = resolver.resolve("unknown.dll", 0x1234);
    assert!(!frame.is_resolved());
    assert_eq!(frame.module, "unknown.dll");
    assert_eq!(frame.offset, 0x1234);
}

#[test]
fn floor_search_resolves_to_preceding_entry() {
    let table = ModuleSymbols {
        functions: vec![(0x100, "f1".to_string()), (0x200, "f2".to_string())],
    };
    assert_eq!(table.lookup(0x150), Some("f1".to_string()));
    assert_eq!(table.lookup(0x50), None);
    assert_eq!(table.lookup(0x200), Some("f2".to_string()));
}

#[test]
fn resolver_uses_loaded_symbols() {
    let mut resolver = SymbolResolver::new("symcache");
    resolver.load_module_symbols(
        "C:\\game\\Test.DLL",
        vec![(0x100, "f1".to_string()), (0x200, "f2".to_string())],
    );
    assert_eq!(resolver.loaded_module_count(), 1);

    let frame = resolver.resolve("C:\\game\\test.dll", 0x150);
    assert!(frame.is_resolved());
    assert_eq!(frame.function, Some("f1".to_string()));
    assert_eq!(frame.module, "test.dll");

    let below = resolver.resolve("test.dll", 0x50);
    assert!(!below.is_resolved());
}

#[test]
fn load_sorts_and_keeps_first_name_per_address() {
    let mut resolver = SymbolResolver::new("symcache");
    resolver.load_module_symbols(
        "mod.dll",
        vec![
            (0x300, "late".to_string()),
            (0x100, "early".to_string()),
            (0x300, "dupe".to_string()),
        ],
    );
    let frame = resolver.resolve("mod.dll", 0x350);
    assert_eq!(frame.function, Some("late".to_string()));
    let frame = resolver.resolve("mod.dll", 0x120);
    assert_eq!(frame.function, Some("early".to_string()));
}

#[test]
fn reload_replaces_module_table() {
    let mut resolver = SymbolResolver::new("symcache");
    resolver.load_module_symbols("mod.dll", vec![(0x100, "old_name".to_string())]);
    resolver.load_module_symbols("mod.dll", vec![(0x100, "new_name".to_string())]);
    assert_eq!(resolver.loaded_module_count(), 1);
    let frame = resolver.resolve("mod.dll", 0x100);
    assert_eq!(frame.function, Some("new_name".to_string()));
}

#[test]
fn resolve_all_preserves_order() {
    let mut resolver = SymbolResolver::new("symcache");
    resolver.load_module_symbols("a.dll", vec![(0x10, "fa".to_string())]);
    let frames = vec![("a.dll".to_string(), 0x20u64), ("b.dll".to_string(), 0x30u64)];
    let resolved = resolver.resolve_all(&frames);
    assert_eq!(resolved.len(), 2);
    assert_eq!(resolved[0].function, Some("fa".to_string()));
    assert_eq!(resolved[1].function, None);
    assert_eq!(resolved[1].module, "b.dll");
}

#[test]
fn add_search_dir_records_directory() {
    let mut resolver = SymbolResolver::new("symcache");
    resolver.add_search_dir("plugins");
    resolver.add_search_dir("game");
    assert_eq!(resolver.search_dirs.len(), 2);
    assert_eq!(resolver.search_dirs[0], "plugins");
}
