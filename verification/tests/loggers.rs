use std::cell::RefCell;
use std::rc::Rc;

use watchparty::avio::SeekFrom;
use watchparty::logger::{IoEvent, IoReadHandler, IoWriteHandler, LogSink, LoggerSettings, ReadLogger, WriteLogger};

struct Bytes {
    data: Vec<u8>,
    pos: usize,
}

impl IoReadHandler for Bytes {
    fn read(&mut self, buf: &mut [u8]) -> i32 {
        let n = buf.len().min(self.data.len() - self.pos);
        buf[..n].copy_from_slice(&self.data[self.pos..self.pos + n]);
        self.pos += n;
        n as i32
    }
    fn seek(&mut self, offset: SeekFrom) -> i64 {
        self.pos = match offset {
            SeekFrom::Start(i) => i as usize,
            SeekFrom::End(i) => (self.data.len() as i64 + i) as usize,
            SeekFrom::Current(i) => (self.pos as i64 + i) as usize,
        };
        self.pos as i64
    }
    fn size(&mut self) -> u64 {
        self.data.len() as u64
    }
}

struct Sink(Vec<u8>);

impl IoWriteHandler for Sink {
    fn write(&mut self, buf: &[u8]) -> i32 {
        self.0.extend_from_slice(buf);
        0
    }
    fn seek(&mut self, _offset: SeekFrom) -> i64 {
        self.0.len() as i64
    }
}

#[derive(Clone, Default)]
struct Recorder(Rc<RefCell<Vec<(String, IoEvent)>>>);

impl LogSink for Recorder {
    fn log(&mut self, tag: &str, event: IoEvent) {
        self.0.borrow_mut().push((tag.to_string(), event));
    }
}

#[test]
fn read_logger_new_sets_switches() {
    let logger = ReadLogger::new(Bytes { data: vec![], pos: 0 }, Recorder::default(), "input", true, false, true);
    let s: &LoggerSettings = &logger.settings;
    assert_eq!(s.tag, "input");
    assert!(s.read && !s.write && !s.seek && s.size);
}

#[test]
fn write_logger_new_sets_switches() {
    let logger = WriteLogger::new(Sink(vec![]), Recorder::default(), "output", true, true);
    let s = &logger.settings;
    assert_eq!(s.tag, "output");
    assert!(!s.read && s.write && s.seek && !s.size);
}

#[test]
fn read_logger_forwards_and_reports_enabled_calls() {
    let rec = Recorder::default();
    let mut logger = ReadLogger::new(Bytes { data: vec![1, 2, 3, 4, 5], pos: 0 }, rec.clone(), "input", true, true, false);
    let mut buf = [0u8; 3];
    assert_eq!(logger.read(&mut buf), 3);
    assert_eq!(buf, [1, 2, 3]);
    assert_eq!(logger.seek(SeekFrom::Current(0)), 3);
    assert_eq!(logger.size(), 5);
    let events = rec.0.borrow();
    assert_eq!(events.len(), 2);
    assert_eq!(events[0], ("input".to_string(), IoEvent::Read { buf_size: 3, count: 3 }));
    assert_eq!(events[1], ("input".to_string(), IoEvent::Seek { offset: SeekFrom::Current(0), pos: 3 }));
}

#[test]
fn read_logger_silent_when_switched_off() {
    let rec = Recorder::default();
    let mut logger = ReadLogger::new(Bytes { data: vec![9; 10], pos: 0 }, rec.clone(), "quiet", false, false, false);
    let mut buf = [0u8; 4];
    assert_eq!(logger.read(&mut buf), 4);
    assert_eq!(logger.seek(SeekFrom::End(-1)), 9);
    assert_eq!(logger.size(), 10);
    assert!(rec.0.borrow().is_empty());
}

#[test]
fn read_logger_reports_size_when_asked() {
    let rec = Recorder::default();
    let mut logger = ReadLogger::new(Bytes { data: vec![0; 6], pos: 0 }, rec.clone(), "sz", false, false, true);
    assert_eq!(logger.size(), 6);
    assert_eq!(rec.0.borrow()[0], ("sz".to_string(), IoEvent::Size { size: 6 }));
}

#[test]
fn write_logger_forwards_and_reports() {
    let rec = Recorder::default();
    let mut logger = WriteLogger::new(Sink(vec![]), rec.clone(), "out", true, false);
    assert_eq!(logger.write(&[7, 8]), 0);
    assert_eq!(logger.seek(SeekFrom::Start(0)), 2);
    let events = rec.0.borrow();
    assert_eq!(events.len(), 1);
    assert_eq!(events[0], ("out".to_string(), IoEvent::Write { buf_size: 2, status: 0 }));
}

#[test]
fn settings_switches_decide_events() {
    let s = LoggerSettings { tag: "t".to_string(), read: false, write: true, seek: false, size: true };
    assert!(!s.logs(&IoEvent::Read { buf_size: 1, count: 1 }));
    assert!(s.logs(&IoEvent::Write { buf_size: 1, status: 0 }));
    assert!(!s.logs(&IoEvent::Seek { offset: SeekFrom::Start(0), pos: 0 }));
    assert!(s.logs(&IoEvent::Size { size: 0 }));
}

#[derive(Default)]
struct Lines(Vec<(String, IoEvent)>);

impl LogSink for Lines {
    fn log(&mut self, tag: &str, event: IoEvent) {
        self.0.push((tag.to_string(), event));
    }
}

#[test]
fn write_logger_sink_holds_seek_reports_only_when_switched_on() {
    let mut logger = WriteLogger::new(Sink(vec![]), Lines::default(), "w", false, true);
    assert_eq!(logger.write(&[1, 2, 3]), 0);
    assert_eq!(logger.seek(SeekFrom::End(0)), 3);
    assert_eq!(logger.sink.0, vec![("w".to_string(), IoEvent::Seek { offset: SeekFrom::End(0), pos: 3 })]);
    assert_eq!(logger.target.0, vec![1, 2, 3]);
}
