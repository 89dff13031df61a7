use std::sync::atomic::{AtomicBool, Ordering};
use std::sync::{Arc, Mutex};

use fusabi_host::{HostContext, LogLevel, NoopHostContext};

struct TestContext {
    logs: Arc<Mutex<Vec<(LogLevel, String)>>>,
    cancel_flag: Arc<AtomicBool>,
}

impl TestContext {
    fn new() -> Self {
        Self {
            logs: Arc::new(Mutex::new(Vec::new())),
            cancel_flag: Arc::new(AtomicBool::new(false)),
        }
    }

    fn get_logs(&self) -> Vec<(LogLevel, String)> {
        self.logs.lock().unwrap().clone()
    }

    fn set_cancel(&self, cancel: bool) {
        self.cancel_flag.store(cancel, Ordering::Relaxed);
    }
}

impl HostContext for TestContext {
    fn log(&self, level: LogLevel, message: &str) {
        self.logs.lock().unwrap().push((level, message.to_string()));
    }

    fn should_cancel(&self) -> bool {
        self.cancel_flag.load(Ordering::Relaxed)
    }
}

#[test]
fn test_cancellation() {
    let ctx = TestContext::new();

    assert!(!ctx.should_cancel());

    ctx.set_cancel(true);
    assert!(ctx.should_cancel());

    ctx.set_cancel(false);
    assert!(!ctx.should_cancel());
}

#[test]
fn test_log_level_display() {
    assert_eq!(LogLevel::Error.to_string(), "ERROR");
    assert_eq!(LogLevel::Warn.to_string(), "WARN");
    assert_eq!(LogLevel::Info.to_string(), "INFO");
    assert_eq!(LogLevel::Debug.to_string(), "DEBUG");
    assert_eq!(LogLevel::Trace.to_string(), "TRACE");
}

#[test]
fn test_log_level_ordering() {
    assert!(LogLevel::Error < LogLevel::Warn);
    assert!(LogLevel::Warn < LogLevel::Info);
    assert!(LogLevel::Info < LogLevel::Debug);
    assert!(LogLevel::Debug < LogLevel::Trace);
}

#[test]
fn convenience_methods_log_at_their_level() {
    let ctx = TestContext::new();
    ctx.error("e");
    ctx.warn("w");
    ctx.info("i");
    ctx.debug("d");
    ctx.trace("t");
    let levels: Vec<LogLevel> = ctx.get_logs().into_iter().map(|(l, _)| l).collect();
    assert_eq!(levels, vec![LogLevel::Error, LogLevel::Warn, LogLevel::Info, LogLevel::Debug, LogLevel::Trace]);
    assert!(!NoopHostContext.should_cancel());
    NoopHostContext.info("ignored");
}
