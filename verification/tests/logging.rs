use kernel_core::interrupts::{ExternalInterrupt, PIC_1_OFFSET, PIC_2_OFFSET};
use kernel_core::log::{Level, Log, Logger, LoggerListener};

struct Tap {
    heard: Vec<String>,
}

impl LoggerListener for Tap {
    fn did_log(&mut self, log: &Log) {
        self.heard.push(log.message.clone());
    }
}

#[test]
fn log_records_entries() {
    let mut logger: Logger<Tap> = Logger::new(16);
    logger.register_listener(Tap { heard: Vec::new() });

    logger.log(Level::INFO, "booted");
    logger.log(Level::WARNING, "queue full");

    let entries = logger.all();
    assert_eq!(entries.len(), 2);
    assert!(matches!(entries[0].level, Level::INFO));
    assert_eq!(entries[0].message, "booted");
    assert!(matches!(entries[1].level, Level::WARNING));
    assert_eq!(entries[1].message, "queue full");
}

#[test]
fn interrupt_vectors() {
    assert_eq!(PIC_1_OFFSET, 32);
    assert_eq!(PIC_2_OFFSET, 40);
    assert_eq!(ExternalInterrupt::Timer.as_u8(), 32);
    assert_eq!(ExternalInterrupt::Keyboard.as_u8(), 33);
    assert_eq!(ExternalInterrupt::Keyboard.as_usize(), 33);
}
