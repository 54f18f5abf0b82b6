use ctd_core::capture::{exception_code_name, format_exception_address, format_exception_code,
    is_fatal_exception, CapturedFrame, CrashData, CrashHandlerError, HandlerRegistration,
    StackWalker, MAX_STACK_FRAMES};

#[test]
fn test_exception_code_name() {
    assert_eq!(exception_code_name(0xC0000005), "ACCESS_VIOLATION");
    assert_eq!(exception_code_name(0xC00000FD), "STACK_OVERFLOW");
    assert_eq!(exception_code_name(0x12345678), "UNKNOWN_EXCEPTION");
}

#[test]
fn test_crash_data_clone() {
    let data = CrashData {
        exception_code: 0xC0000005,
        exception_address: 0x7FF712345678,
        stack_trace: "test trace".to_string(),
        faulting_module: Some("test.dll".to_string()),
    };

    let cloned = data.clone();
    assert_eq!(cloned.exception_code, data.exception_code);
    assert_eq!(cloned.stack_trace, data.stack_trace);
}

#[test]
fn fatal_codes_are_intercepted() {
    assert!(is_fatal_exception(0xC0000005)); // access violation
    assert!(is_fatal_exception(0xC00000FD)); // stack overflow
    assert!(is_fatal_exception(0xC0000374)); // heap corruption
    assert!(is_fatal_exception(0xC0000409)); // stack-buffer overrun
    assert!(!is_fatal_exception(0x80000003)); // breakpoint: declined
    assert!(!is_fatal_exception(0));
}

#[test]
fn exception_renderings_are_fixed_width() {
    assert_eq!(format_exception_code(0xC0000005), "0xC0000005");
    assert_eq!(format_exception_code(0x5), "0x00000005");
    assert_eq!(format_exception_address(0x7FF712345678), "0x00007FF712345678");
}

#[test]
fn test_handler_installed_default() {
    let state = HandlerRegistration::new();
    assert!(!state.registered);
}

#[test]
fn register_handler_is_idempotent() {
    let mut state = HandlerRegistration::new();
    assert!(state.register().is_ok());
    match state.register() {
        Err(CrashHandlerError::AlreadyRegistered) => {}
        other => panic!("expected AlreadyRegistered, got {:?}", other),
    }
    assert!(state.registered);
}

#[test]
fn remove_handler_clears_registration() {
    let mut state = HandlerRegistration::new();
    assert!(state.install_handler());
    assert!(!state.install_handler());
    assert!(state.remove_handler());
    assert!(!state.remove_handler());
}

#[test]
fn cyclic_stack_walk_stops_at_maximum_depth() {
    let mut walker = StackWalker::new();
    let mut steps = 0u32;
    // A synthetic cyclic frame chain: the same frame forever.
    for _ in 0..1000 {
        let frame = CapturedFrame {
            module: Some("loop.dll".to_string()),
            base: Some(0x1000),
            pc: 0x1234,
        };
        steps += 1;
        if !walker.push_frame(frame) {
            break;
        }
    }
    assert_eq!(steps, MAX_STACK_FRAMES as u32);
    assert_eq!(walker.frame_count(), MAX_STACK_FRAMES);
}

#[test]
fn walker_renders_numbered_lines() {
    let mut walker = StackWalker::new();
    walker.push_frame(CapturedFrame {
        module: Some("game.exe".to_string()),
        base: Some(0x1000),
        pc: 0x1200,
    });
    walker.push_frame(CapturedFrame { module: None, base: None, pc: 0x99 });
    let fallback = CapturedFrame { module: None, base: None, pc: 0 };
    let trace = walker.into_trace(fallback);
    assert_eq!(
        trace,
        "[ 0] game.exe+0x200 (0x0000000000001200)\n[ 1] unknown+0x99 (0x0000000000000099)\n"
    );
}

#[test]
fn empty_walk_falls_back_to_faulting_address() {
    let walker = StackWalker::new();
    let fallback = CapturedFrame {
        module: Some("crash.dll".to_string()),
        base: Some(0x7FF700000000),
        pc: 0x7FF712345678,
    };
    let trace = walker.into_trace(fallback);
    assert_eq!(trace, "[ 0] crash.dll+0x12345678 (0x00007FF712345678)\n");
}

#[test]
fn walker_index_width_grows_at_ten() {
    let mut walker = StackWalker::new();
    for i in 0..11u64 {
        walker.push_frame(CapturedFrame { module: None, base: None, pc: i });
    }
    let fallback = CapturedFrame { module: None, base: None, pc: 0 };
    let trace = walker.into_trace(fallback);
    assert!(trace.contains("[ 9] unknown"));
    assert!(trace.contains("[10] unknown"));
}
