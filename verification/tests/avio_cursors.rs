use watchparty::avio::{
    decode_seek, io_mode, read_callback_result, IoMode, ReadCursor, SeekFrom, SeekRequest, TmpTags,
    WriteCursor, AVSEEK_SIZE, BUFFER_SIZE, SEEK_CUR, SEEK_END,
};
use watchparty::averror::AVERROR_EOF;

#[test]
fn decode_seek_size_flag_wins() {
    assert_eq!(decode_seek(5, AVSEEK_SIZE), SeekRequest::Size);
    assert_eq!(decode_seek(5, AVSEEK_SIZE | SEEK_CUR), SeekRequest::Size);
    assert_eq!(decode_seek(5, AVSEEK_SIZE | SEEK_END), SeekRequest::Size);
}

#[test]
fn decode_seek_origins() {
    assert_eq!(decode_seek(-3, SEEK_CUR), SeekRequest::Seek(SeekFrom::Current(-3)));
    assert_eq!(decode_seek(-3, SEEK_END), SeekRequest::Seek(SeekFrom::End(-3)));
    assert_eq!(decode_seek(10, 0), SeekRequest::Seek(SeekFrom::Start(10)));
    // both bits: the current position is tested first
    assert_eq!(decode_seek(4, SEEK_CUR | SEEK_END), SeekRequest::Seek(SeekFrom::Current(4)));
    // a negative absolute offset is reinterpreted as unsigned
    assert_eq!(decode_seek(-1, 0), SeekRequest::Seek(SeekFrom::Start(u64::MAX)));
}

#[test]
fn read_callback_maps_zero_to_eof() {
    assert_eq!(read_callback_result(0), AVERROR_EOF);
    assert_eq!(read_callback_result(4096), 4096);
    assert_eq!(read_callback_result(-5), -5);
}

#[test]
fn io_mode_by_direction() {
    assert_eq!(io_mode(true), IoMode { write_flag: 0, read_callback: true, write_callback: false });
    assert_eq!(io_mode(false), IoMode { write_flag: 1, read_callback: false, write_callback: true });
    assert_eq!(BUFFER_SIZE, 1024 * 4 * 16);
}

#[test]
fn read_cursor_seeks() {
    let mut c = ReadCursor::new(1000);
    assert_eq!(c.size(), 1000);
    assert_eq!(c.seek(SeekFrom::Start(100)), 100);
    assert_eq!(c.seek(SeekFrom::Current(-30)), 70);
    assert_eq!(c.seek(SeekFrom::End(-10)), 990);
    c.advance(10);
    assert_eq!(c.cursor, 1000);
    assert_eq!(c.seek(SeekFrom::Current(0)), 1000);
    assert_eq!(c.size, 1000);
}

#[test]
fn tell_does_not_move() {
    let mut c = ReadCursor::new(50);
    c.advance(17);
    let before = c;
    assert_eq!(c.seek(SeekFrom::Current(0)), 17);
    assert_eq!(c, before);
}

#[test]
fn write_cursor_tracks_high_water_mark() {
    let mut w = WriteCursor::new(7);
    assert_eq!(w, WriteCursor { cursor: 0, size: 0, tag: 7 });
    w.record_write(100);
    assert_eq!((w.cursor, w.size()), (100, 100));
    assert_eq!(w.seek(SeekFrom::Start(10)), 10);
    w.record_write(20);
    assert_eq!((w.cursor, w.size), (30, 100));
    assert_eq!(w.seek(SeekFrom::End(0)), 100);
    w.record_write(5);
    assert_eq!((w.cursor, w.size), (105, 105));
    assert_eq!(w.tag, 7);
}

#[test]
fn write_cursor_negative_position_reads_as_large() {
    let mut w = WriteCursor::for_audio();
    assert_eq!(w.seek(SeekFrom::Current(-8)), -8);
    w.record_write(4);
    assert_eq!(w.cursor, -4);
    assert_eq!(w.size, (-4i64) as u64);
}

#[test]
fn audio_and_video_tags() {
    assert_eq!(WriteCursor::for_audio().tag, 0);
    assert_eq!(WriteCursor::for_video().tag, 1);
}

#[test]
fn tmp_tags_count_up() {
    let mut tags = TmpTags::new();
    assert_eq!(tags.new_tmp().tag, 0);
    assert_eq!(tags.new_tmp().tag, 1);
    let w = tags.new_tmp();
    assert_eq!(w, WriteCursor { cursor: 0, size: 0, tag: 2 });
    assert_eq!(tags.next, 3);
}

#[test]
fn relative_seeks_compose() {
    let mut a = ReadCursor::new(500);
    a.seek(SeekFrom::Start(40));
    a.seek(SeekFrom::Current(25));
    let pa = a.seek(SeekFrom::Current(-10));
    let mut b = ReadCursor::new(500);
    b.seek(SeekFrom::Start(40));
    let pb = b.seek(SeekFrom::Current(15));
    assert_eq!(pa, pb);
    assert_eq!(a, b);
}
