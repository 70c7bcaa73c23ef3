use endurox_rs::{
    Affinity, AllocCall, AtmiCtx, AtmiError, LogCall, LogLevel, Logger, SessionCall, SessionState,
    UbfError,
};

fn no_error() -> AtmiError {
    AtmiError::new(0, "")
}

fn refused() -> AtmiError {
    AtmiError::new(AtmiError::TPEPROTO, "session state does not allow this call")
}

fn initialized() -> AtmiCtx {
    let mut ctx = AtmiCtx::new().unwrap();
    assert_eq!(ctx.tpinit(), Ok(SessionCall::Init));
    assert_eq!(ctx.tpinit_reply(0, no_error()), Ok(()));
    ctx
}

#[test]
fn new_session_is_confined_and_uninitialized() {
    let ctx = AtmiCtx::new().unwrap();
    assert_eq!(ctx.state(), SessionState::Uninitialized);
    assert!(!ctx.is_initialized());
    assert_eq!(ctx.handle(), None);
    assert_eq!(ctx.affinity(), Affinity::Confined);
}

#[test]
fn session_around_a_native_context_is_movable() {
    let ctx = AtmiCtx::with_context(0x7f00).unwrap();
    assert_eq!(ctx.state(), SessionState::Uninitialized);
    assert_eq!(ctx.handle(), Some(0x7f00));
    assert_eq!(ctx.affinity(), Affinity::Movable);
}

#[test]
fn missing_native_context_is_a_system_error() {
    let err = AtmiCtx::with_context(0).unwrap_err();
    assert_eq!(err.code, AtmiError::TPESYSTEM);
    assert_eq!(err.code, 12);
    assert_eq!(err.message, "Failed to allocate new context - see ULOG for details");
}

#[test]
fn init_success_initializes() {
    let mut ctx = AtmiCtx::with_context(5).unwrap();
    assert_eq!(ctx.tpinit(), Ok(SessionCall::Init));
    assert_eq!(ctx.tpinit_reply(0, AtmiError::new(9, "stale")), Ok(()));
    assert_eq!(ctx.state(), SessionState::Initialized);
    assert!(ctx.is_initialized());
    assert_eq!(ctx.handle(), Some(5));
}

#[test]
fn init_failure_leaves_the_session_uninitialized() {
    let mut ctx = AtmiCtx::new().unwrap();
    let last = AtmiError::new(AtmiError::TPESYSTEM, "no queue");
    assert_eq!(ctx.tpinit_reply(-1, last.clone()), Err(last));
    assert_eq!(ctx.state(), SessionState::Uninitialized);
    // The session can be initialized later on.
    assert_eq!(ctx.tpinit(), Ok(SessionCall::Init));
    assert_eq!(ctx.tpinit_reply(0, no_error()), Ok(()));
    assert_eq!(ctx.state(), SessionState::Initialized);
}

#[test]
fn init_is_refused_unless_uninitialized() {
    let mut ctx = initialized();
    assert_eq!(ctx.tpinit(), Err(refused()));
    assert_eq!(ctx.tpinit_reply(0, no_error()), Err(refused()));
    assert_eq!(ctx.state(), SessionState::Initialized);

    assert_eq!(ctx.tpterm_reply(0, no_error()), Ok(()));
    assert_eq!(ctx.tpinit(), Err(refused()));
    assert_eq!(ctx.tpinit_reply(0, no_error()), Err(refused()));
    assert_eq!(ctx.state(), SessionState::Terminated);
}

#[test]
fn terminate_success_terminates() {
    let mut ctx = initialized();
    assert_eq!(ctx.tpterm(), Ok(Some(SessionCall::Term)));
    assert_eq!(ctx.tpterm_reply(0, no_error()), Ok(()));
    assert_eq!(ctx.state(), SessionState::Terminated);
}

#[test]
fn terminate_failure_leaves_the_session_initialized() {
    let mut ctx = initialized();
    let last = AtmiError::new(AtmiError::TPEPROTO, "transaction open");
    assert_eq!(ctx.tpterm_reply(-1, last.clone()), Err(last));
    assert_eq!(ctx.state(), SessionState::Initialized);
    assert_eq!(ctx.tpterm(), Ok(Some(SessionCall::Term)));
}

#[test]
fn terminate_twice_succeeds_with_one_native_call() {
    let mut ctx = initialized();
    let mut native_calls = 0;

    for _ in 0..2 {
        match ctx.tpterm() {
            Ok(Some(SessionCall::Term)) => {
                native_calls += 1;
                assert_eq!(ctx.tpterm_reply(0, no_error()), Ok(()));
            }
            Ok(None) => {}
            other => panic!("unexpected {:?}", other),
        }
    }

    assert_eq!(native_calls, 1);
    assert_eq!(ctx.state(), SessionState::Terminated);
    // A stray reply succeeds too and changes nothing, whatever it carries.
    assert_eq!(ctx.tpterm_reply(-1, AtmiError::new(12, "late")), Ok(()));
    assert_eq!(ctx.state(), SessionState::Terminated);
    assert_eq!(ctx.close(), None);
}

#[test]
fn terminate_before_init_is_refused() {
    let mut ctx = AtmiCtx::new().unwrap();
    assert_eq!(ctx.tpterm(), Err(refused()));
    assert_eq!(ctx.tpterm_reply(0, no_error()), Err(refused()));
    assert_eq!(ctx.state(), SessionState::Uninitialized);
}

#[test]
fn close_terminates_only_an_initialized_session() {
    let mut fresh = AtmiCtx::new().unwrap();
    assert_eq!(fresh.close(), None);
    assert_eq!(fresh.state(), SessionState::Uninitialized);

    let mut live = initialized();
    assert_eq!(live.close(), Some(SessionCall::Term));
    assert_eq!(live.state(), SessionState::Terminated);
    assert_eq!(live.close(), None);
    assert_eq!(live.tpterm(), Ok(None));
}

#[test]
fn last_error_keeps_number_and_text() {
    let ctx = AtmiCtx::new().unwrap();
    assert_eq!(ctx.atmi_last_error(13, "timed out"), AtmiError::new(AtmiError::TPETIME, "timed out"));
    assert_eq!(ctx.atmi_last_error(0, ""), AtmiError::new(0, ""));
    assert_eq!(ctx.atmi_last_error(-1, "odd").code, 4294967295);
    assert_eq!(ctx.ubf_last_error(4, "no space"), UbfError::new(UbfError::BNOSPACE, "no space"));
    assert_eq!(ctx.ubf_last_error(-2, "odd").code, 4294967294);
}

#[test]
fn alloc_asks_for_terminated_names() {
    let ctx = initialized();
    let call = ctx.tpalloc("STRING", "sub", 512).unwrap();
    assert_eq!(
        call,
        AllocCall { type_: b"STRING\0".to_vec(), subtype: b"sub\0".to_vec(), size: 512 }
    );
    let call = ctx.tpalloc("", "", 0).unwrap();
    assert_eq!(call, AllocCall { type_: vec![0], subtype: vec![0], size: 0 });
    let call = ctx.tpalloc("J\u{e4}", "", 1).unwrap();
    assert_eq!(call.type_, vec![0x4a, 0xc3, 0xa4, 0]);
}

#[test]
fn alloc_ubf_asks_for_the_structured_type() {
    let ctx = initialized();
    let call = ctx.tpalloc_ubf(1024).unwrap();
    assert_eq!(call, AllocCall { type_: b"UBF\0".to_vec(), subtype: vec![0], size: 1024 });
    assert_eq!(Ok(call), ctx.tpalloc("UBF", "", 1024));
}

#[test]
fn alloc_refuses_names_with_nul() {
    let ctx = initialized();
    assert_eq!(
        ctx.tpalloc("UB\0F", "", 16),
        Err(AtmiError::new(AtmiError::TPEINVAL, "type_ contains NUL byte"))
    );
    assert_eq!(
        ctx.tpalloc("UBF", "\0", 16),
        Err(AtmiError::new(AtmiError::TPEINVAL, "subtype contains NUL byte"))
    );
    // The type is looked at first.
    assert_eq!(
        ctx.tpalloc("\0", "\0", 16),
        Err(AtmiError::new(AtmiError::TPEINVAL, "type_ contains NUL byte"))
    );
}

#[test]
fn alloc_is_refused_unless_initialized() {
    let mut ctx = AtmiCtx::new().unwrap();
    assert_eq!(ctx.tpalloc("UBF", "", 16), Err(refused()));
    assert_eq!(ctx.tpalloc_ubf(16), Err(refused()));
    // The state is looked at before the names.
    assert_eq!(ctx.tpalloc("\0", "", 16), Err(refused()));
    assert_eq!(ctx.tpalloc_reply(0x1000, no_error()).unwrap_err(), refused());
    assert_eq!(ctx.tpalloc_ubf_reply(0x1000, no_error()).unwrap_err(), refused());

    ctx.tpinit_reply(0, no_error()).unwrap();
    ctx.tpterm_reply(0, no_error()).unwrap();
    assert_eq!(ctx.tpalloc("UBF", "", 16), Err(refused()));
    assert_eq!(ctx.tpalloc_reply(0x1000, no_error()).unwrap_err(), refused());
}

#[test]
fn alloc_reply_makes_a_buffer_or_hands_the_error_on() {
    let ctx = initialized();
    let buf = ctx.tpalloc_reply(0x4000, AtmiError::new(7, "stale")).unwrap();
    assert_eq!(buf.as_ptr(), 0x4000);
    assert!(!buf.is_null());
    assert!(buf.ctx().is_initialized());

    let last = AtmiError::new(AtmiError::TPEOS, "out of memory");
    assert_eq!(ctx.tpalloc_reply(0, last.clone()).unwrap_err(), last);
    assert_eq!(ctx.tpalloc_ubf_reply(0, last.clone()).unwrap_err(), last);
    let ubf = ctx.tpalloc_ubf_reply(0x6000, no_error()).unwrap();
    assert_eq!(ubf.as_ubfh(), 0x6000);
}

#[test]
fn log_levels_have_their_numbers() {
    assert_eq!(LogLevel::Always.code(), 1);
    assert_eq!(LogLevel::Error.code(), 2);
    assert_eq!(LogLevel::Warn.code(), 3);
    assert_eq!(LogLevel::Info.code(), 4);
    assert_eq!(LogLevel::Debug.code(), 5);
    assert_eq!(LogLevel::Dump.code(), 6);
    assert_eq!(i32::from(LogLevel::Warn), 3);
    let n: i32 = LogLevel::Dump.into();
    assert_eq!(n, 6);
}

#[test]
fn log_lines_go_to_their_logger() {
    let ctx = AtmiCtx::new().unwrap();
    assert_eq!(
        ctx.tplog_str(LogLevel::Info, "src/main.rs", 42, "started"),
        Some(LogCall {
            logger: Logger::Tp,
            level: 4,
            file: b"src/main.rs\0".to_vec(),
            line: 42,
            message: b"started\0".to_vec(),
        })
    );
    assert_eq!(ctx.ndrxlog_str(LogLevel::Always, "a.rs", 0, "").unwrap().logger, Logger::Ndrx);
    let line = ctx.ubflog_str(LogLevel::Dump, "b.rs", u32::MAX, "x").unwrap();
    assert_eq!(line.logger, Logger::Ubf);
    assert_eq!(line.level, 6);
    assert_eq!(line.line, 4294967295);
}

#[test]
fn log_text_loses_its_nul_bytes() {
    let ctx = AtmiCtx::new().unwrap();
    let line = ctx.tplog_str(LogLevel::Error, "f.rs", 1, "\0a\0\0b\u{e9}\0").unwrap();
    assert_eq!(line.message, vec![b'a', b'b', 0xc3, 0xa9, 0]);
    let line = ctx.tplog_str(LogLevel::Error, "f.rs", 1, "\0\0").unwrap();
    assert_eq!(line.message, vec![0]);
}

#[test]
fn log_line_with_nul_in_file_name_is_dropped() {
    let ctx = AtmiCtx::new().unwrap();
    assert_eq!(ctx.tplog_str(LogLevel::Error, "bad\0name.rs", 1, "text"), None);
    assert_eq!(ctx.ndrxlog_str(LogLevel::Error, "\0", 1, "text"), None);
    assert_eq!(ctx.ubflog_str(LogLevel::Error, "bad\0", 1, "text"), None);
}
