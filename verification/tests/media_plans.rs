use watchparty::media::{
    keep_audio_packet, next_mux_action, fragment_full, pick_output_container, plan_audio_repeat,
    plan_av_remux, route_packet, select_first_streams,
    select_last_audio, str_contains, AudioPlan, AvPlan, MediaKind, MuxAction, OutputContainer,
    PlanError, StreamDesc, Track, AVMEDIA_TYPE_AUDIO, AVMEDIA_TYPE_VIDEO, DEMO_FRAG_SIZE,
};

fn s(kind: MediaKind, index: i32) -> StreamDesc {
    StreamDesc { kind, index }
}

use MediaKind::{Audio, Other, Video};

#[test]
fn contains_matches_substrings() {
    assert!(str_contains("matroska,webm", "webm"));
    assert!(str_contains("mov,mp4,m4a,3gp,3g2,mj2", "mp4"));
    assert!(!str_contains("mp3", "mp4"));
    assert!(str_contains("abc", ""));
    assert!(!str_contains("", "a"));
    assert!(str_contains("webm", "webm"));
    assert!(!str_contains("web", "webm"));
    assert!(str_contains("wewebm", "webm"));
}

#[test]
fn container_choice() {
    assert_eq!(pick_output_container("matroska,webm"), Some(OutputContainer::Webm));
    assert_eq!(pick_output_container("mov,mp4,m4a,3gp,3g2,mj2"), Some(OutputContainer::Mp4));
    assert_eq!(pick_output_container("webm_mp4"), Some(OutputContainer::Webm));
    assert_eq!(pick_output_container("avi"), None);
    assert_eq!(OutputContainer::Webm.short_name(), "webm");
    assert_eq!(OutputContainer::Mp4.short_name(), "mp4");
}

#[test]
fn media_kind_codes() {
    assert_eq!(MediaKind::from_code(AVMEDIA_TYPE_VIDEO), Video);
    assert_eq!(MediaKind::from_code(AVMEDIA_TYPE_AUDIO), Audio);
    assert_eq!(MediaKind::from_code(3), Other);
    assert_eq!(MediaKind::from_code(-1), Other);
}

#[test]
fn fragment_plan_takes_first_of_each_kind() {
    let streams = [s(Video, 0), s(Other, 1), s(Video, 2), s(Audio, 3), s(Video, 4), s(Audio, 5)];
    assert_eq!(
        plan_av_remux("webm", &streams),
        Ok(AvPlan { container: OutputContainer::Webm, audio_index: 3, video_index: 0 })
    );
    // a video stream after the first audio stream is taken too
    assert_eq!(
        plan_av_remux("webm", &[s(Audio, 0), s(Video, 1)]),
        Ok(AvPlan { container: OutputContainer::Webm, audio_index: 0, video_index: 1 })
    );
    assert_eq!(select_first_streams(&[]), (None, None));
}

#[test]
fn first_streams_for_remux() {
    let streams = [s(Video, 0), s(Audio, 1), s(Video, 2), s(Audio, 3)];
    assert_eq!(select_first_streams(&streams), (Some(1), Some(0)));
    assert_eq!(select_first_streams(&[s(Audio, 0), s(Video, 1)]), (Some(0), Some(1)));
    assert_eq!(select_first_streams(&[s(Other, 0)]), (None, None));
}

#[test]
fn last_audio_for_repeat() {
    let streams = [s(Audio, 0), s(Video, 1), s(Audio, 2), s(Other, 3)];
    assert_eq!(select_last_audio(&streams), Some(2));
    assert_eq!(select_last_audio(&[s(Video, 0)]), None);
}

#[test]
fn fragment_plan_checks_in_order() {
    let streams = [s(Video, 0), s(Audio, 1)];
    assert_eq!(
        plan_av_remux("matroska,webm", &streams),
        Ok(AvPlan { container: OutputContainer::Webm, audio_index: 1, video_index: 0 })
    );
    assert_eq!(plan_av_remux("avi", &streams), Err(PlanError::UnsupportedContainer));
    assert_eq!(plan_av_remux("avi", &[]), Err(PlanError::UnsupportedContainer));
    assert_eq!(plan_av_remux("mp4", &[s(Video, 0)]), Err(PlanError::NoAudioStream));
    assert_eq!(plan_av_remux("mp4", &[s(Audio, 0), s(Other, 1)]), Err(PlanError::NoVideoStream));
}

#[test]
fn remux_plan_uses_first_streams() {
    let streams = [s(Audio, 0), s(Video, 1), s(Video, 2)];
    assert_eq!(
        plan_av_remux("mov,mp4,m4a", &streams),
        Ok(AvPlan { container: OutputContainer::Mp4, audio_index: 0, video_index: 1 })
    );
    assert_eq!(plan_av_remux("mp4", &[s(Audio, 0)]), Err(PlanError::NoVideoStream));
}

#[test]
fn audio_repeat_plan() {
    assert_eq!(
        plan_audio_repeat("webm", &[s(Audio, 0), s(Audio, 4)]),
        Ok(AudioPlan { container: OutputContainer::Webm, audio_index: 4 })
    );
    assert_eq!(plan_audio_repeat("webm", &[s(Video, 0)]), Err(PlanError::NoAudioStream));
    assert_eq!(plan_audio_repeat("flv", &[s(Audio, 0)]), Err(PlanError::UnsupportedContainer));
}

#[test]
fn packets_are_routed_by_stream() {
    let plan = AvPlan { container: OutputContainer::Mp4, audio_index: 1, video_index: 0 };
    assert_eq!(route_packet(1, &plan), Some(Track::Audio));
    assert_eq!(route_packet(0, &plan), Some(Track::Video));
    assert_eq!(route_packet(2, &plan), None);
    assert_eq!(Track::Audio.fragment_stream_index(), 0);
    assert_eq!(Track::Video.fragment_stream_index(), 1);
}

#[test]
fn mux_actions() {
    let plan = AvPlan { container: OutputContainer::Webm, audio_index: 2, video_index: 5 };
    assert_eq!(next_mux_action(-1, 2, &plan), MuxAction::Finish);
    assert_eq!(next_mux_action(0, 2, &plan), MuxAction::Write(Track::Audio));
    assert_eq!(next_mux_action(0, 5, &plan), MuxAction::Write(Track::Video));
    assert_eq!(next_mux_action(0, 3, &plan), MuxAction::Skip);
}

#[test]
fn fragment_size_limit() {
    assert_eq!(DEMO_FRAG_SIZE, 1024 * 1024 * 4);
    assert!(!fragment_full(DEMO_FRAG_SIZE as u64, DEMO_FRAG_SIZE));
    assert!(fragment_full(DEMO_FRAG_SIZE as u64 + 1, DEMO_FRAG_SIZE));
    assert!(!fragment_full(0, 0));
}

#[test]
fn audio_repeat_keeps_only_its_stream() {
    let plan = AudioPlan { container: OutputContainer::Webm, audio_index: 3 };
    assert!(keep_audio_packet(3, &plan));
    assert!(!keep_audio_packet(0, &plan));
}

/// Cuts fragments from `packets` (stream indices) the way the fragment loop
/// does, with `sizes[i]` the output size after writing packet `i`, and gives
/// back the positions each fragment wrote.
fn cut_fragments(packets: &[i32], sizes: &[u64], plan: &AvPlan, frag_size: u32, count: usize) -> Vec<Vec<usize>> {
    let mut pos = 0;
    let mut out = Vec::new();
    for _ in 0..count {
        let mut written = Vec::new();
        loop {
            let status = if pos < packets.len() { 0 } else { -1 };
            let index = if pos < packets.len() { packets[pos] } else { -1 };
            match next_mux_action(status, index, plan) {
                MuxAction::Finish => break,
                MuxAction::Skip => pos += 1,
                MuxAction::Write(_) => {
                    written.push(pos);
                    pos += 1;
                    if fragment_full(sizes[pos - 1], frag_size) {
                        break;
                    }
                }
            }
        }
        out.push(written);
    }
    out
}

#[test]
fn fragments_continue_without_loss_or_repeat() {
    let plan = AvPlan { container: OutputContainer::Webm, audio_index: 1, video_index: 0 };
    let packets = [0, 1, 2, 0, 0, 1, 2, 1, 0, 1];
    let sizes = [10, 20, 0, 120, 30, 40, 0, 50, 120, 30];
    let frags = cut_fragments(&packets, &sizes, &plan, 100, 3);
    assert_eq!(frags, vec![vec![0, 1, 3], vec![4, 5, 7, 8], vec![9]]);
    let all: Vec<usize> = frags.concat();
    let selected: Vec<usize> = (0..packets.len()).filter(|&i| packets[i] != 2).collect();
    assert_eq!(all, selected);
}
