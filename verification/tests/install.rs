use std::sync::Mutex;

use multi_logger::Level;
use multi_logger::Metadata;
use multi_logger::MultiLogger;
use multi_logger::Record;
use multi_logger::VecSink;

/// A process-wide sink for the `log` facade: the verified adapter behind a
/// mutex, with the facade's records converted to the library's.
struct GlobalSink {
    inner: Mutex<MultiLogger<VecSink>>,
}

fn from_log_level(level: log::Level) -> Level {
    match level {
        log::Level::Error => Level::Error,
        log::Level::Warn => Level::Warn,
        log::Level::Info => Level::Info,
        log::Level::Debug => Level::Debug,
        log::Level::Trace => Level::Trace,
    }
}

impl log::Log for GlobalSink {
    fn enabled(&self, metadata: &log::Metadata) -> bool {
        let md = Metadata {
            level: from_log_level(metadata.level()),
            target: metadata.target().to_string(),
        };
        match self.inner.lock() {
            Ok(guard) => guard.enabled(&md),
            Err(_) => false,
        }
    }

    fn log(&self, record: &log::Record) {
        let r = Record {
            level: from_log_level(record.level()),
            target: record.target().to_string(),
            message: format!("{}", record.args()),
            module: None,
            file: record.file().map(str::to_string),
            line: record.line(),
        };
        if let Ok(mut guard) = self.inner.lock() {
            guard.log(&r);
        }
    }

    fn flush(&self) {
        if let Ok(mut guard) = self.inner.lock() {
            guard.flush();
        }
    }
}

fn global_sink() -> GlobalSink {
    GlobalSink { inner: Mutex::new(MultiLogger::new(vec![VecSink::new(Level::Info)])) }
}

#[test]
fn install_twice_fails_second_time() {
    let first = log::set_boxed_logger(Box::new(global_sink()));
    assert!(first.is_ok());

    let second = log::set_boxed_logger(Box::new(global_sink()));
    assert!(second.is_err());

    // The first sink remains the facade's sink and still serves calls.
    log::set_max_level(log::LevelFilter::Trace);
    let md = log::Metadata::builder().level(log::Level::Info).target("test").build();
    assert!(log::logger().enabled(&md));
    log::logger().flush();
}
