//! The handlers that FFmpeg's custom I/O reads from and writes to, and
//! loggers that stand in front of a handler and report each call.
use vstd::prelude::*;

use crate::avio::SeekFrom;

verus! {

/// A source that FFmpeg reads a media file from.
pub trait IoReadHandler: Sized {
    /// What a read may do: from this handler and buffer to handler `after`
    /// and buffer `buf_after`, returning `count`. A handler that states
    /// nothing of its reads allows any outcome.
    open spec fn read_post(self, buf: Seq<u8>, after: Self, buf_after: Seq<u8>, count: i32) -> bool {
        true
    }

    /// What a seek by `offset` may do: from this handler to handler `after`,
    /// returning the position `pos`. A handler that states nothing of its
    /// seeks allows any outcome.
    open spec fn seek_post(self, offset: SeekFrom, after: Self, pos: i64) -> bool {
        true
    }

    /// Fills the front of `buf` and returns how many bytes were read.
    fn read(&mut self, buf: &mut [u8]) -> (count: i32)
        ensures
            old(self).read_post(old(buf)@, *final(self), final(buf)@, count),
    ;

    /// Moves the cursor and returns its new position.
    fn seek(&mut self, offset: SeekFrom) -> (pos: i64)
        ensures
            old(self).seek_post(offset, *final(self), pos),
    ;

    /// What a size query may do: from this handler to handler `after`,
    /// returning `size`. A handler that states nothing of its size queries
    /// allows any outcome.
    open spec fn size_post(self, after: Self, size: u64) -> bool {
        true
    }

    /// The size of the source in bytes. It takes `&mut self` because a
    /// handler may record the call, as a logger does.
    fn size(&mut self) -> (size: u64)
        ensures
            old(self).size_post(*final(self), size),
    ;
}

/// A sink that FFmpeg writes a media file to.
pub trait IoWriteHandler: Sized {
    /// What a write of `buf` may do: from this handler to handler `after`,
    /// returning `status`. A handler that states nothing of its writes
    /// allows any outcome.
    open spec fn write_post(self, buf: Seq<u8>, after: Self, status: i32) -> bool {
        true
    }

    /// What a seek by `offset` may do: from this handler to handler `after`,
    /// returning the position `pos`. A handler that states nothing of its
    /// seeks allows any outcome.
    open spec fn seek_post(self, offset: SeekFrom, after: Self, pos: i64) -> bool {
        true
    }

    /// Writes `buf` at the cursor; 0 on success, a negative error code else.
    fn write(&mut self, buf: &[u8]) -> (status: i32)
        ensures
            old(self).write_post(buf@, *final(self), status),
    ;

    /// Moves the cursor and returns its new position.
    fn seek(&mut self, offset: SeekFrom) -> (pos: i64)
        ensures
            old(self).seek_post(offset, *final(self), pos),
    ;
}

/// One call that went through a logger, with what it returned.
#[derive(Clone, Copy, Debug, PartialEq, Eq, Structural)]
pub enum IoEvent {
    Read { buf_size: usize, count: i32 },
    Write { buf_size: usize, status: i32 },
    Seek { offset: SeekFrom, pos: i64 },
    Size { size: u64 },
}

/// Where a logger sends the calls that it reports, with the logger's tag.
pub trait LogSink: Sized {
    /// What reporting `event` under `tag` may do to the sink: from this sink
    /// to sink `after`. A sink that states nothing of its reports allows any
    /// outcome.
    open spec fn log_post(self, tag: Seq<char>, event: IoEvent, after: Self) -> bool {
        true
    }

    /// Reports `event` under `tag`.
    fn log(&mut self, tag: &str, event: IoEvent)
        ensures
            old(self).log_post(tag@, event, *final(self)),
    ;
}

/// Which calls a logger reports, and under which tag.
#[derive(Debug)]
pub struct LoggerSettings {
    pub tag: String,
    pub read: bool,
    pub write: bool,
    pub seek: bool,
    pub size: bool,
}

/// Whether settings with these switches report an event.
pub open spec fn spec_logs(read: bool, write: bool, seek: bool, size: bool, event: IoEvent) -> bool {
    match event {
        IoEvent::Read { .. } => read,
        IoEvent::Write { .. } => write,
        IoEvent::Seek { .. } => seek,
        IoEvent::Size { .. } => size,
    }
}

impl LoggerSettings {
    /// Whether these settings report `event`: each kind of call has its own switch.
    pub open spec fn spec_reports(&self, event: IoEvent) -> bool {
        spec_logs(self.read, self.write, self.seek, self.size, event)
    }

    /// Whether these settings report `event`: each kind of call has its own switch.
    pub fn logs(&self, event: &IoEvent) -> (b: bool)
        ensures
            b == spec_logs(self.read, self.write, self.seek, self.size, *event),
            *event is Read ==> b == self.read,
            *event is Write ==> b == self.write,
            *event is Seek ==> b == self.seek,
            *event is Size ==> b == self.size,
    {
        match event {
            IoEvent::Read { .. } => self.read,
            IoEvent::Write { .. } => self.write,
            IoEvent::Seek { .. } => self.seek,
            IoEvent::Size { .. } => self.size,
        }
    }
}

/// Each kind of call is reported under its own switch alone, whatever the
/// other switches are.
pub proof fn lemma_each_switch_alone(
    read: bool,
    write: bool,
    seek: bool,
    size: bool,
    buf_size: usize,
    result: i32,
    offset: SeekFrom,
    pos: i64,
    len: u64,
)
    ensures
        spec_logs(read, write, seek, size, IoEvent::Read { buf_size, count: result }) == read,
        spec_logs(read, write, seek, size, IoEvent::Write { buf_size, status: result }) == write,
        spec_logs(read, write, seek, size, IoEvent::Seek { offset, pos }) == seek,
        spec_logs(read, write, seek, size, IoEvent::Size { size: len }) == size,
{
}

/// A report adds exactly the event, under the settings' tag, to the record
/// where the event's own switch is on, and leaves the record and the sink as
/// they were where it is off.
pub proof fn lemma_report_records_switched_on<S: LogSink>(
    settings: LoggerSettings,
    sink: S,
    reported: Seq<(Seq<char>, IoEvent)>,
    event: IoEvent,
    sink_after: S,
    reported_after: Seq<(Seq<char>, IoEvent)>,
)
    requires
        spec_report(settings, sink, reported, event, sink_after, reported_after),
    ensures
        ({
            let on = match event {
                IoEvent::Read { .. } => settings.read,
                IoEvent::Write { .. } => settings.write,
                IoEvent::Seek { .. } => settings.seek,
                IoEvent::Size { .. } => settings.size,
            };
            &&& on ==> reported_after.len() == reported.len() + 1 && reported_after.last() == (
            settings.tag@,
            event,
        ) && reported_after.drop_last() == reported
            &&& !on ==> reported_after == reported && sink_after == sink
        }),
{
    if settings.spec_reports(event) {
        assert(reported_after.drop_last() =~= reported);
    }
}

/// How reporting `event` under `settings` takes a sink from `sink` to
/// `sink_after` and the record of reports from `reported` to
/// `reported_after`: where the settings report the event, the sink is handed
/// the event under the settings' tag and the record gains that pair;
/// elsewhere the sink and the record stay as they are.
pub open spec fn spec_report<S: LogSink>(
    settings: LoggerSettings,
    sink: S,
    reported: Seq<(Seq<char>, IoEvent)>,
    event: IoEvent,
    sink_after: S,
    reported_after: Seq<(Seq<char>, IoEvent)>,
) -> bool {
    if settings.spec_reports(event) {
        &&& sink.log_post(settings.tag@, event, sink_after)
        &&& reported_after == reported.push((settings.tag@, event))
    } else {
        &&& sink_after == sink
        &&& reported_after == reported
    }
}

/// A read handler that reports the calls made to the handler behind it.
pub struct ReadLogger<T, S> {
    pub target: T,
    pub settings: LoggerSettings,
    pub sink: S,
    /// The calls reported so far, with the tag they were reported under.
    pub reported: Ghost<Seq<(Seq<char>, IoEvent)>>,
}

impl<T: IoReadHandler, S: LogSink> ReadLogger<T, S> {
    /// A call that returned `event` reported as the settings say, from this
    /// logger to `after`; the settings stay.
    pub open spec fn reports(self, event: IoEvent, after: Self) -> bool {
        &&& after.settings == self.settings
        &&& spec_report(self.settings, self.sink, self.reported@, event, after.sink, after.reported@)
    }

    /// A logger in front of `target` that reports to `sink` under `tag`; it
    /// reports the kinds of call whose switch is on, never writes, and has
    /// reported nothing yet.
    pub fn new(target: T, sink: S, tag: &str, read: bool, seek: bool, size: bool) -> (r: Self)
        ensures
            r.target == target,
            r.sink == sink,
            r.settings.tag@ == tag@,
            r.settings.read == read,
            !r.settings.write,
            r.settings.seek == seek,
            r.settings.size == size,
            r.reported@ == Seq::<(Seq<char>, IoEvent)>::empty(),
    {
        let settings = LoggerSettings { tag: tag.to_owned(), read, write: false, seek, size };
        ReadLogger { target, settings, sink, reported: Ghost(Seq::empty()) }
    }

    /// Hands `event` to the sink and records it where the settings report it.
    fn report(&mut self, event: IoEvent)
        ensures
            final(self).target == old(self).target,
            old(self).reports(event, *final(self)),
    {
        if self.settings.logs(&event) {
            self.sink.log(self.settings.tag.as_str(), event);
            self.reported = Ghost(self.reported@.push((self.settings.tag@, event)));
        }
    }
}

impl<T: IoReadHandler, S: LogSink> IoReadHandler for ReadLogger<T, S> {
    /// A read through the logger is a read of the handler behind it,
    /// reported as the settings say.
    open spec fn read_post(self, buf: Seq<u8>, after: Self, buf_after: Seq<u8>, count: i32) -> bool {
        &&& self.target.read_post(buf, after.target, buf_after, count)
        &&& self.reports(IoEvent::Read { buf_size: buf.len() as usize, count }, after)
    }

    /// A seek through the logger is a seek of the handler behind it,
    /// reported as the settings say.
    open spec fn seek_post(self, offset: SeekFrom, after: Self, pos: i64) -> bool {
        &&& self.target.seek_post(offset, after.target, pos)
        &&& self.reports(IoEvent::Seek { offset, pos }, after)
    }

    /// A size query through the logger is a size query of the handler
    /// behind it, reported as the settings say.
    open spec fn size_post(self, after: Self, size: u64) -> bool {
        &&& self.target.size_post(after.target, size)
        &&& self.reports(IoEvent::Size { size }, after)
    }

    fn read(&mut self, buf: &mut [u8]) -> (ret: i32)
        ensures
            old(self).target.read_post(old(buf)@, final(self).target, final(buf)@, ret),
            old(self).reports(IoEvent::Read { buf_size: old(buf)@.len() as usize, count: ret }, *final(self)),
    {
        let buf_size: usize = buf.len();
        let ret: i32 = self.target.read(buf);
        self.report(IoEvent::Read { buf_size, count: ret });
        ret
    }

    fn seek(&mut self, offset: SeekFrom) -> (ret: i64)
        ensures
            old(self).target.seek_post(offset, final(self).target, ret),
            old(self).reports(IoEvent::Seek { offset, pos: ret }, *final(self)),
    {
        let ret: i64 = self.target.seek(offset);
        self.report(IoEvent::Seek { offset, pos: ret });
        ret
    }

    fn size(&mut self) -> (ret: u64)
        ensures
            old(self).target.size_post(final(self).target, ret),
            old(self).reports(IoEvent::Size { size: ret }, *final(self)),
    {
        let ret: u64 = self.target.size();
        self.report(IoEvent::Size { size: ret });
        ret
    }
}

/// A write handler that reports the calls made to the handler behind it.
pub struct WriteLogger<T, S> {
    pub target: T,
    pub settings: LoggerSettings,
    pub sink: S,
    /// The calls reported so far, with the tag they were reported under.
    pub reported: Ghost<Seq<(Seq<char>, IoEvent)>>,
}

impl<T: IoWriteHandler, S: LogSink> WriteLogger<T, S> {
    /// A call that returned `event` reported as the settings say, from this
    /// logger to `after`; the settings stay.
    pub open spec fn reports(self, event: IoEvent, after: Self) -> bool {
        &&& after.settings == self.settings
        &&& spec_report(self.settings, self.sink, self.reported@, event, after.sink, after.reported@)
    }

    /// A logger in front of `target` that reports to `sink` under `tag`; it
    /// reports writes and seeks as their switches say, never reads, and has
    /// reported nothing yet.
    pub fn new(target: T, sink: S, tag: &str, write: bool, seek: bool) -> (r: Self)
        ensures
            r.target == target,
            r.sink == sink,
            r.settings.tag@ == tag@,
            !r.settings.read,
            r.settings.write == write,
            r.settings.seek == seek,
            !r.settings.size,
            r.reported@ == Seq::<(Seq<char>, IoEvent)>::empty(),
    {
        let settings = LoggerSettings { tag: tag.to_owned(), read: false, write, seek, size: false };
        WriteLogger { target, settings, sink, reported: Ghost(Seq::empty()) }
    }

    /// Hands `event` to the sink and records it where the settings report it.
    fn report(&mut self, event: IoEvent)
        ensures
            final(self).target == old(self).target,
            old(self).reports(event, *final(self)),
    {
        if self.settings.logs(&event) {
            self.sink.log(self.settings.tag.as_str(), event);
            self.reported = Ghost(self.reported@.push((self.settings.tag@, event)));
        }
    }
}

impl<T: IoWriteHandler, S: LogSink> IoWriteHandler for WriteLogger<T, S> {
    /// A write through the logger is a write of the handler behind it,
    /// reported as the settings say.
    open spec fn write_post(self, buf: Seq<u8>, after: Self, status: i32) -> bool {
        &&& self.target.write_post(buf, after.target, status)
        &&& self.reports(IoEvent::Write { buf_size: buf.len() as usize, status }, after)
    }

    /// A seek through the logger is a seek of the handler behind it,
    /// reported as the settings say.
    open spec fn seek_post(self, offset: SeekFrom, after: Self, pos: i64) -> bool {
        &&& self.target.seek_post(offset, after.target, pos)
        &&& self.reports(IoEvent::Seek { offset, pos }, after)
    }

    fn write(&mut self, buf: &[u8]) -> (ret: i32)
        ensures
            old(self).target.write_post(buf@, final(self).target, ret),
            old(self).reports(IoEvent::Write { buf_size: buf@.len() as usize, status: ret }, *final(self)),
    {
        let buf_size: usize = buf.len();
        let ret: i32 = self.target.write(buf);
        self.report(IoEvent::Write { buf_size, status: ret });
        ret
    }

    fn seek(&mut self, offset: SeekFrom) -> (ret: i64)
        ensures
            old(self).target.seek_post(offset, final(self).target, ret),
            old(self).reports(IoEvent::Seek { offset, pos: ret }, *final(self)),
    {
        let ret: i64 = self.target.seek(offset);
        self.report(IoEvent::Seek { offset, pos: ret });
        ret
    }
}

} // verus!
