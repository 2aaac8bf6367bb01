//! The decisions of the remuxing routines: which container an input is
//! written back into, which of its streams are taken, and where each packet
//! read from the input goes.
use vstd::prelude::*;

verus! {

/// FFmpeg's `AVMEDIA_TYPE_VIDEO`.
pub const AVMEDIA_TYPE_VIDEO: i32 = 0;

/// FFmpeg's `AVMEDIA_TYPE_AUDIO`.
pub const AVMEDIA_TYPE_AUDIO: i32 = 1;

/// The size limit of each fragment in the fragment demo: 4 MiB.
pub const DEMO_FRAG_SIZE: u32 = 4194304;

/// How many fragments the fragment demo writes, with tags 0, 1, 2.
pub const DEMO_FRAGMENT_COUNT: i32 = 3;

/// How many times the audio-repeat demo remuxes the audio stream.
pub const AUDIO_REPEAT_COUNT: u32 = 3;

/// `needle` occurs in `hay` as a contiguous run.
pub open spec fn has_substring(hay: Seq<char>, needle: Seq<char>) -> bool {
    exists|i: int|
        0 <= i && i + needle.len() <= hay.len() && #[trigger] hay.subrange(i, i + needle.len())
            == needle
}

/// Whether `needle` occurs in `hay`, as `str::contains` with a string pattern.
pub fn str_contains(hay: &str, needle: &str) -> (b: bool)
    ensures
        b == has_substring(hay@, needle@),
{
    let n: usize = hay.unicode_len();
    let m: usize = needle.unicode_len();
    if m > n {
        assert forall|i: int|
            0 <= i && i + needle@.len() <= hay@.len() implies #[trigger] hay@.subrange(
            i,
            i + needle@.len(),
        ) != needle@ by {}
        return false;
    }
    let mut i: usize = 0;
    while i <= n - m
        invariant
            n == hay@.len(),
            m == needle@.len(),
            m <= n,
            i <= n - m + 1,
            forall|j: int| 0 <= j < i ==> #[trigger] hay@.subrange(j, j + m) != needle@,
        decreases n - m + 1 - i,
    {
        let mut k: usize = 0;
        let mut same = true;
        while k < m
            invariant
                n == hay@.len(),
                m == needle@.len(),
                i + m <= n,
                k <= m,
                same <==> (forall|l: int| 0 <= l < k ==> hay@[i + l] == needle@[l]),
            decreases m - k,
        {
            if hay.get_char(i + k) != needle.get_char(k) {
                same = false;
            }
            k = k + 1;
        }
        if same {
            assert(hay@.subrange(i as int, i + m) =~= needle@);
            return true;
        }
        assert(hay@.subrange(i as int, i + m)[0] == hay@[i as int + 0]);
        assert(!(forall|l: int| 0 <= l < m ==> hay@[i + l] == needle@[l]));
        assert(hay@.subrange(i as int, i + m) != needle@) by {
            let l: int = choose|l: int| 0 <= l < m && hay@[i + l] != needle@[l];
            assert(hay@.subrange(i as int, i + m)[l] == hay@[i + l]);
        }
        i = i + 1;
    }
    false
}

/// The containers that inputs are remuxed into.
#[derive(Clone, Copy, Debug, PartialEq, Eq, Structural)]
pub enum OutputContainer {
    Webm,
    Mp4,
}

/// The container for an input whose format has this short name.
pub open spec fn spec_output_container(input_name: Seq<char>) -> Option<OutputContainer> {
    if has_substring(input_name, seq!['w', 'e', 'b', 'm']) {
        Some(OutputContainer::Webm)
    } else if has_substring(input_name, seq!['m', 'p', '4']) {
        Some(OutputContainer::Mp4)
    } else {
        None
    }
}

impl OutputContainer {
    /// The short name of the muxer, as `av_guess_format` takes it.
    pub fn short_name(&self) -> (s: &'static str)
        ensures
            *self == OutputContainer::Webm ==> s@ == seq!['w', 'e', 'b', 'm'],
            *self == OutputContainer::Mp4 ==> s@ == seq!['m', 'p', '4'],
    {
        proof {
            reveal_strlit("webm");
            reveal_strlit("mp4");
            assert("webm"@ =~= seq!['w', 'e', 'b', 'm']);
            assert("mp4"@ =~= seq!['m', 'p', '4']);
        }
        match self {
            OutputContainer::Webm => "webm",
            OutputContainer::Mp4 => "mp4",
        }
    }
}

/// The container that an input is remuxed into: the first of "webm" and
/// "mp4" that occurs in the short name of the input's format.
pub fn pick_output_container(input_name: &str) -> (c: Option<OutputContainer>)
    ensures
        c == spec_output_container(input_name@),
{
    proof {
        reveal_strlit("webm");
        reveal_strlit("mp4");
        assert("webm"@ =~= seq!['w', 'e', 'b', 'm']);
        assert("mp4"@ =~= seq!['m', 'p', '4']);
    }
    if str_contains(input_name, "webm") {
        Some(OutputContainer::Webm)
    } else if str_contains(input_name, "mp4") {
        Some(OutputContainer::Mp4)
    } else {
        None
    }
}

/// The kind of a stream of the input.
#[derive(Clone, Copy, Debug, PartialEq, Eq, Structural)]
pub enum MediaKind {
    Video,
    Audio,
    Other,
}

impl MediaKind {
    /// The kind for an FFmpeg `AVMediaType` code.
    pub fn from_code(code: i32) -> (k: MediaKind)
        ensures
            code == AVMEDIA_TYPE_VIDEO ==> k == MediaKind::Video,
            code == AVMEDIA_TYPE_AUDIO ==> k == MediaKind::Audio,
            code != AVMEDIA_TYPE_VIDEO && code != AVMEDIA_TYPE_AUDIO ==> k == MediaKind::Other,
    {
        if code == AVMEDIA_TYPE_VIDEO {
            MediaKind::Video
        } else if code == AVMEDIA_TYPE_AUDIO {
            MediaKind::Audio
        } else {
            MediaKind::Other
        }
    }
}

/// A stream of the input: its kind and its index in the input.
#[derive(Clone, Copy, Debug, PartialEq, Eq, Structural)]
pub struct StreamDesc {
    pub kind: MediaKind,
    pub index: i32,
}

/// The position of the first stream of kind `k`, or the number of streams
/// where there is none.
pub open spec fn first_pos(s: Seq<StreamDesc>, k: MediaKind) -> int
    decreases s.len(),
{
    if s.len() == 0 {
        0
    } else if s[0].kind == k {
        0
    } else {
        1 + first_pos(s.drop_first(), k)
    }
}

/// The position of the last stream of kind `k` before position `end`, or -1
/// where there is none.
pub open spec fn last_pos_before(s: Seq<StreamDesc>, k: MediaKind, end: int) -> int
    decreases end,
{
    if end <= 0 {
        -1
    } else if s[end - 1].kind == k {
        end - 1
    } else {
        last_pos_before(s, k, end - 1)
    }
}

/// The index of the stream at `pos`, where `pos` is a position of `s`.
pub open spec fn index_at(s: Seq<StreamDesc>, pos: int) -> Option<i32> {
    if 0 <= pos < s.len() {
        Some(s[pos].index)
    } else {
        None
    }
}

proof fn lemma_first_pos(s: Seq<StreamDesc>, k: MediaKind)
    ensures
        0 <= first_pos(s, k) <= s.len(),
        forall|j: int| 0 <= j < first_pos(s, k) ==> s[j].kind != k,
        first_pos(s, k) < s.len() ==> s[first_pos(s, k)].kind == k,
    decreases s.len(),
{
    if s.len() > 0 && s[0].kind != k {
        lemma_first_pos(s.drop_first(), k);
        assert forall|j: int| 0 <= j < first_pos(s, k) implies s[j].kind != k by {
            if j > 0 {
                assert(s[j] == s.drop_first()[j - 1]);
            }
        }
    }
}

proof fn lemma_last_pos_before(s: Seq<StreamDesc>, k: MediaKind, end: int)
    requires
        0 <= end <= s.len(),
    ensures
        -1 <= last_pos_before(s, k, end) < end,
        forall|j: int| last_pos_before(s, k, end) < j < end ==> s[j].kind != k,
        last_pos_before(s, k, end) >= 0 ==> s[last_pos_before(s, k, end)].kind == k,
    decreases end,
{
    if end > 0 && s[end - 1].kind != k {
        lemma_last_pos_before(s, k, end - 1);
    }
}

/// Steps the first-position search by one stream.
proof fn lemma_first_pos_step(s: Seq<StreamDesc>, k: MediaKind, i: int)
    requires
        0 <= i < s.len(),
        forall|j: int| 0 <= j < i ==> s[j].kind != k,
    ensures
        s[i].kind == k ==> first_pos(s, k) == i,
        s[i].kind != k ==> forall|j: int| 0 <= j <= i ==> s[j].kind != k,
    decreases i,
{
    if i > 0 {
        assert forall|j: int| 0 <= j < i - 1 implies s.drop_first()[j].kind != k by {
            assert(s.drop_first()[j] == s[j + 1]);
        }
        assert(s.drop_first()[i - 1] == s[i]);
        lemma_first_pos_step(s.drop_first(), k, i - 1);
    }
}

/// Where no stream before `i` has kind `k`, the first one lies at `i` or later.
proof fn lemma_first_pos_at_least(s: Seq<StreamDesc>, k: MediaKind, i: int)
    requires
        0 <= i <= s.len(),
        forall|j: int| 0 <= j < i ==> s[j].kind != k,
    ensures
        first_pos(s, k) >= i,
    decreases i,
{
    if i > 0 {
        assert(s[0].kind != k);
        assert forall|j: int| 0 <= j < i - 1 implies s.drop_first()[j].kind != k by {
            assert(s.drop_first()[j] == s[j + 1]);
        }
        lemma_first_pos_at_least(s.drop_first(), k, i - 1);
    } else {
        lemma_first_pos(s, k);
    }
}

/// Where no stream before `i` has kind `k`, the first one of kind `k` found
/// at or after `i` is the first of all.
proof fn lemma_first_pos_found(s: Seq<StreamDesc>, k: MediaKind, i: int)
    requires
        0 <= i < s.len(),
        forall|j: int| 0 <= j < i ==> s[j].kind != k,
        s[i].kind == k,
    ensures
        first_pos(s, k) == i,
{
    lemma_first_pos_step(s, k, i);
}

/// The position of the first stream of kind `k`, in exec code.
fn find_first(streams: &[StreamDesc], k: MediaKind) -> (r: Option<i32>)
    ensures
        r == index_at(streams@, first_pos(streams@, k)),
{
    let ghost s = streams@;
    let mut i: usize = 0;
    while i < streams.len()
        invariant
            s == streams@,
            i <= s.len(),
            forall|j: int| 0 <= j < i ==> s[j].kind != k,
        decreases s.len() - i,
    {
        let d = streams[i];
        if d.kind == k {
            proof {
                lemma_first_pos_found(s, k, i as int);
            }
            return Some(d.index);
        }
        i = i + 1;
    }
    proof {
        lemma_first_pos_at_least(s, k, s.len() as int);
        lemma_first_pos(s, k);
    }
    None
}

/// The streams taken for the remux demo: the first audio stream and the first
/// video stream.
pub open spec fn spec_first_streams(s: Seq<StreamDesc>) -> (Option<i32>, Option<i32>) {
    (
        index_at(s, first_pos(s, MediaKind::Audio)),
        index_at(s, first_pos(s, MediaKind::Video)),
    )
}

/// Selects the first audio stream and the first video stream.
pub fn select_first_streams(streams: &[StreamDesc]) -> (r: (Option<i32>, Option<i32>))
    ensures
        r == spec_first_streams(streams@),
{
    (find_first(streams, MediaKind::Audio), find_first(streams, MediaKind::Video))
}

/// The audio stream taken for the audio-repeat demo: the last one.
pub open spec fn spec_last_audio(s: Seq<StreamDesc>) -> Option<i32> {
    index_at(s, last_pos_before(s, MediaKind::Audio, s.len() as int))
}

/// Selects the last audio stream: each audio stream replaces the one before.
pub fn select_last_audio(streams: &[StreamDesc]) -> (r: Option<i32>)
    ensures
        r == spec_last_audio(streams@),
{
    let ghost s = streams@;
    let mut audio: Option<i32> = None;
    let mut i: usize = 0;
    while i < streams.len()
        invariant
            s == streams@,
            i <= s.len(),
            audio == index_at(s, last_pos_before(s, MediaKind::Audio, i as int)),
        decreases s.len() - i,
    {
        proof {
            lemma_last_pos_before(s, MediaKind::Audio, i as int);
        }
        let d = streams[i];
        if d.kind == MediaKind::Audio {
            audio = Some(d.index);
        }
        i = i + 1;
    }
    audio
}

/// Why an input cannot be remuxed.
#[derive(Clone, Copy, Debug, PartialEq, Eq, Structural)]
pub enum PlanError {
    /// The input's format names neither "webm" nor "mp4".
    UnsupportedContainer,
    /// No audio stream was taken.
    NoAudioStream,
    /// No video stream was taken.
    NoVideoStream,
}

/// What a remux of an audio and a video stream writes: the container, and
/// the input indices of the two streams.
#[derive(Clone, Copy, Debug, PartialEq, Eq, Structural)]
pub struct AvPlan {
    pub container: OutputContainer,
    pub audio_index: i32,
    pub video_index: i32,
}

/// The plan for an input with this format name and these selected streams.
/// The container is checked first, then the audio stream, then the video.
pub open spec fn spec_av_plan(input_name: Seq<char>, selected: (Option<i32>, Option<i32>)) -> Result<
    AvPlan,
    PlanError,
> {
    match spec_output_container(input_name) {
        None => Err(PlanError::UnsupportedContainer),
        Some(container) => match selected.0 {
            None => Err(PlanError::NoAudioStream),
            Some(audio_index) => match selected.1 {
                None => Err(PlanError::NoVideoStream),
                Some(video_index) => Ok(AvPlan { container, audio_index, video_index }),
            },
        },
    }
}

/// Plans a remux of the audio and the video of an input whose format has
/// short name `input_name` and whose streams are `streams`: the container,
/// and the first audio stream and the first video stream found. Both the
/// fragmented remux and the remux demo go by this plan.
pub fn plan_av_remux(input_name: &str, streams: &[StreamDesc]) -> (r: Result<AvPlan, PlanError>)
    ensures
        r == spec_av_plan(input_name@, spec_first_streams(streams@)),
{
    let container = match pick_output_container(input_name) {
        None => return Err(PlanError::UnsupportedContainer),
        Some(c) => c,
    };
    let (audio, video) = select_first_streams(streams);
    let audio_index = match audio {
        None => return Err(PlanError::NoAudioStream),
        Some(a) => a,
    };
    let video_index = match video {
        None => return Err(PlanError::NoVideoStream),
        Some(v) => v,
    };
    Ok(AvPlan { container, audio_index, video_index })
}

/// What the audio-repeat demo writes: the container and the audio stream.
#[derive(Clone, Copy, Debug, PartialEq, Eq, Structural)]
pub struct AudioPlan {
    pub container: OutputContainer,
    pub audio_index: i32,
}

/// The plan of the audio-repeat demo for an input with this format name and
/// these streams: the container is checked first, then the last audio stream.
pub open spec fn spec_audio_plan(input_name: Seq<char>, s: Seq<StreamDesc>) -> Result<AudioPlan, PlanError> {
    match spec_output_container(input_name) {
        None => Err(PlanError::UnsupportedContainer),
        Some(container) => match spec_last_audio(s) {
            None => Err(PlanError::NoAudioStream),
            Some(audio_index) => Ok(AudioPlan { container, audio_index }),
        },
    }
}

/// Plans the audio-repeat demo.
pub fn plan_audio_repeat(input_name: &str, streams: &[StreamDesc]) -> (r: Result<AudioPlan, PlanError>)
    ensures
        r == spec_audio_plan(input_name@, streams@),
{
    let container = match pick_output_container(input_name) {
        None => return Err(PlanError::UnsupportedContainer),
        Some(c) => c,
    };
    match select_last_audio(streams) {
        None => Err(PlanError::NoAudioStream),
        Some(audio_index) => Ok(AudioPlan { container, audio_index }),
    }
}

/// The container follows the input's format name: "webm" anywhere in the
/// name gives WebM; otherwise "mp4" anywhere gives MP4; a name with neither
/// has no container.
pub proof fn lemma_output_container_by_name(input_name: Seq<char>)
    ensures
        has_substring(input_name, seq!['w', 'e', 'b', 'm']) ==> spec_output_container(input_name)
            == Some(OutputContainer::Webm),
        !has_substring(input_name, seq!['w', 'e', 'b', 'm']) && has_substring(
            input_name,
            seq!['m', 'p', '4'],
        ) ==> spec_output_container(input_name) == Some(OutputContainer::Mp4),
        !has_substring(input_name, seq!['w', 'e', 'b', 'm']) && !has_substring(
            input_name,
            seq!['m', 'p', '4'],
        ) ==> spec_output_container(input_name) is None,
{
}

/// The audio-repeat plan writes the container that the input's format name
/// picks and the last audio stream of the input: the plan succeeds exactly
/// where the name picks a container and the input has an audio stream; its
/// audio index is that of an audio stream after which no audio stream comes.
/// An unknown container is reported before a missing audio stream.
pub proof fn lemma_audio_plan_meaning(input_name: Seq<char>, s: Seq<StreamDesc>)
    ensures
        spec_audio_plan(input_name, s) is Ok <==> (spec_output_container(input_name) is Some && exists|
            i: int,
        |
            0 <= i < s.len() && #[trigger] s[i].kind == MediaKind::Audio),
        spec_audio_plan(input_name, s) matches Ok(p) ==> Some(p.container) == spec_output_container(
            input_name,
        ),
        spec_audio_plan(input_name, s) matches Ok(p) ==> exists|i: int|
            0 <= i < s.len() && #[trigger] s[i].kind == MediaKind::Audio && s[i].index == p.audio_index
                && forall|j: int| i < j < s.len() ==> s[j].kind != MediaKind::Audio,
        spec_audio_plan(input_name, s) == Err::<AudioPlan, PlanError>(PlanError::UnsupportedContainer)
            <==> spec_output_container(input_name) is None,
        spec_audio_plan(input_name, s) == Err::<AudioPlan, PlanError>(PlanError::NoAudioStream) <==> (
        spec_output_container(input_name) is Some && forall|i: int|
            0 <= i < s.len() ==> #[trigger] s[i].kind != MediaKind::Audio),
{
    lemma_last_pos_before(s, MediaKind::Audio, s.len() as int);
    let l = last_pos_before(s, MediaKind::Audio, s.len() as int);
    if exists|i: int| 0 <= i < s.len() && #[trigger] s[i].kind == MediaKind::Audio {
        let i = choose|i: int| 0 <= i < s.len() && #[trigger] s[i].kind == MediaKind::Audio;
        assert(l >= i);
    }
}

/// The remux plan writes the container that the input's format name picks,
/// the first audio stream and the first video stream of the input: it
/// succeeds exactly where the name picks a container and the input has both
/// an audio and a video stream; its indices are those of a stream of each
/// kind before which no stream of that kind comes. An unknown container is
/// reported first, then a missing audio stream, then a missing video stream.
pub proof fn lemma_av_plan_meaning(input_name: Seq<char>, s: Seq<StreamDesc>)
    ensures
        spec_av_plan(input_name, spec_first_streams(s)) is Ok <==> (spec_output_container(input_name) is Some
            && (exists|i: int| 0 <= i < s.len() && #[trigger] s[i].kind == MediaKind::Audio) && (exists|
            i: int,
        |
            0 <= i < s.len() && #[trigger] s[i].kind == MediaKind::Video)),
        spec_av_plan(input_name, spec_first_streams(s)) matches Ok(p) ==> Some(p.container)
            == spec_output_container(input_name),
        spec_av_plan(input_name, spec_first_streams(s)) matches Ok(p) ==> exists|i: int|
            0 <= i < s.len() && #[trigger] s[i].kind == MediaKind::Audio && s[i].index == p.audio_index
                && forall|j: int| 0 <= j < i ==> s[j].kind != MediaKind::Audio,
        spec_av_plan(input_name, spec_first_streams(s)) matches Ok(p) ==> exists|i: int|
            0 <= i < s.len() && #[trigger] s[i].kind == MediaKind::Video && s[i].index == p.video_index
                && forall|j: int| 0 <= j < i ==> s[j].kind != MediaKind::Video,
        spec_av_plan(input_name, spec_first_streams(s)) == Err::<AvPlan, PlanError>(
            PlanError::UnsupportedContainer,
        ) <==> spec_output_container(input_name) is None,
        spec_av_plan(input_name, spec_first_streams(s)) == Err::<AvPlan, PlanError>(
            PlanError::NoAudioStream,
        ) <==> (spec_output_container(input_name) is Some && forall|i: int|
            0 <= i < s.len() ==> #[trigger] s[i].kind != MediaKind::Audio),
        spec_av_plan(input_name, spec_first_streams(s)) == Err::<AvPlan, PlanError>(
            PlanError::NoVideoStream,
        ) <==> (spec_output_container(input_name) is Some && (exists|i: int|
            0 <= i < s.len() && #[trigger] s[i].kind == MediaKind::Audio) && forall|i: int|
            0 <= i < s.len() ==> #[trigger] s[i].kind != MediaKind::Video),
{
    lemma_first_pos(s, MediaKind::Audio);
    lemma_first_pos(s, MediaKind::Video);
    let a = first_pos(s, MediaKind::Audio);
    let v = first_pos(s, MediaKind::Video);
    if exists|i: int| 0 <= i < s.len() && #[trigger] s[i].kind == MediaKind::Audio {
        let i = choose|i: int| 0 <= i < s.len() && #[trigger] s[i].kind == MediaKind::Audio;
        assert(a <= i);
    }
    if exists|i: int| 0 <= i < s.len() && #[trigger] s[i].kind == MediaKind::Video {
        let i = choose|i: int| 0 <= i < s.len() && #[trigger] s[i].kind == MediaKind::Video;
        assert(v <= i);
    }
}

/// A packet goes to the audio track exactly when it comes from the plan's
/// audio stream, to the video track exactly when it comes from the plan's
/// video stream and not the audio one, and is dropped otherwise.
pub proof fn lemma_route_by_stream(stream_index: i32, plan: AvPlan)
    ensures
        spec_route(stream_index, plan) == Some(Track::Audio) <==> stream_index == plan.audio_index,
        spec_route(stream_index, plan) == Some(Track::Video) <==> (stream_index != plan.audio_index
            && stream_index == plan.video_index),
        spec_route(stream_index, plan) is None <==> (stream_index != plan.audio_index && stream_index
            != plan.video_index),
{
}

/// The output track that a packet is written to.
#[derive(Clone, Copy, Debug, PartialEq, Eq, Structural)]
pub enum Track {
    Audio,
    Video,
}

impl Track {
    /// The stream index of the track in a fragment, which holds the audio
    /// stream first and the video stream second.
    pub fn fragment_stream_index(&self) -> (i: i32)
        ensures
            *self == Track::Audio ==> i == 0,
            *self == Track::Video ==> i == 1,
    {
        match self {
            Track::Audio => 0,
            Track::Video => 1,
        }
    }
}

/// The track for a packet of input stream `stream_index`; the audio stream
/// is tested first.
pub open spec fn spec_route(stream_index: i32, plan: AvPlan) -> Option<Track> {
    if stream_index == plan.audio_index {
        Some(Track::Audio)
    } else if stream_index == plan.video_index {
        Some(Track::Video)
    } else {
        None
    }
}

/// Where a packet of input stream `stream_index` goes; `None` drops it.
pub fn route_packet(stream_index: i32, plan: &AvPlan) -> (t: Option<Track>)
    ensures
        t == spec_route(stream_index, *plan),
{
    if stream_index == plan.audio_index {
        Some(Track::Audio)
    } else if stream_index == plan.video_index {
        Some(Track::Video)
    } else {
        None
    }
}

/// What the remux loop does after `av_read_frame` returned `read_status` for a
/// packet of stream `stream_index`.
#[derive(Clone, Copy, Debug, PartialEq, Eq, Structural)]
pub enum MuxAction {
    /// Reading failed or reached the end: write the trailer.
    Finish,
    /// The packet belongs to no selected stream: unreference it, read on.
    Skip,
    /// Rescale the packet and write it to this track.
    Write(Track),
}

/// The next step of the remux loop.
pub open spec fn spec_mux_action(read_status: i32, stream_index: i32, plan: AvPlan) -> MuxAction {
    if read_status < 0 {
        MuxAction::Finish
    } else {
        match spec_route(stream_index, plan) {
            None => MuxAction::Skip,
            Some(t) => MuxAction::Write(t),
        }
    }
}

/// Decides the next step of the remux loop: a negative status ends it, and
/// otherwise the packet is routed by its stream.
pub fn next_mux_action(read_status: i32, stream_index: i32, plan: &AvPlan) -> (a: MuxAction)
    ensures
        a == spec_mux_action(read_status, stream_index, *plan),
{
    if read_status < 0 {
        return MuxAction::Finish;
    }
    match route_packet(stream_index, plan) {
        None => MuxAction::Skip,
        Some(t) => MuxAction::Write(t),
    }
}

/// Whether a fragment whose output has reached `output_size` bytes is done:
/// it is once it exceeds the fragment size.
pub fn fragment_full(output_size: u64, frag_size: u32) -> (b: bool)
    ensures
        b == (output_size > frag_size),
{
    output_size > frag_size as u64
}

/// Whether the audio-repeat loop writes a packet of stream `stream_index`.
pub fn keep_audio_packet(stream_index: i32, plan: &AudioPlan) -> (b: bool)
    ensures
        b == (stream_index == plan.audio_index),
{
    stream_index == plan.audio_index
}

/// A fragment writes a packet to the audio track only where it comes from the
/// first audio stream of the input, to the video track only where it comes
/// from the first video stream, and skips the packets of every other stream.
pub proof fn lemma_fragment_writes_selected_streams(
    input_name: Seq<char>,
    streams: Seq<StreamDesc>,
    read_status: i32,
    stream_index: i32,
    plan: AvPlan,
)
    requires
        spec_av_plan(input_name, spec_first_streams(streams)) == Ok::<AvPlan, PlanError>(plan),
    ensures
        spec_mux_action(read_status, stream_index, plan) == MuxAction::Write(Track::Audio) <==> (
        read_status >= 0 && index_at(streams, first_pos(streams, MediaKind::Audio)) == Some(
            stream_index,
        )),
        spec_mux_action(read_status, stream_index, plan) == MuxAction::Write(Track::Video) <==> (
        read_status >= 0 && index_at(streams, first_pos(streams, MediaKind::Video)) == Some(
            stream_index,
        ) && stream_index != plan.audio_index),
        spec_mux_action(read_status, stream_index, plan) == MuxAction::Skip <==> (read_status >= 0
            && stream_index != plan.audio_index && stream_index != plan.video_index),
        spec_mux_action(read_status, stream_index, plan) == MuxAction::Finish <==> read_status < 0,
{
}

/// The input positions that one fragment writes when it starts reading at
/// `pos`, and the position that the next fragment starts reading at.
/// `packets` holds the stream index of each packet that the input yields, in
/// order; reading past its end fails and ends the fragment. After a packet is
/// written the fragment ends where `full` says, at that packet's position,
/// that the output has outgrown the fragment size.
pub open spec fn fragment_from(packets: Seq<i32>, full: Seq<bool>, plan: AvPlan, pos: nat) -> (Seq<nat>, nat)
    decreases packets.len() - pos,
{
    if pos >= packets.len() {
        (Seq::empty(), pos)
    } else {
        match spec_mux_action(0, packets[pos as int], plan) {
            MuxAction::Write(_) => if pos < full.len() && full[pos as int] {
                (seq![pos], pos + 1)
            } else {
                let rest = fragment_from(packets, full, plan, pos + 1);
                (seq![pos] + rest.0, rest.1)
            },
            _ => fragment_from(packets, full, plan, pos + 1),
        }
    }
}

/// The positions written by `count` fragments made one after another from
/// position `pos`, concatenated in fragment order, and the position that the
/// next fragment would start reading at.
pub open spec fn fragments_from(packets: Seq<i32>, full: Seq<bool>, plan: AvPlan, pos: nat, count: nat) -> (
    Seq<nat>,
    nat,
)
    decreases count,
{
    if count == 0 {
        (Seq::empty(), pos)
    } else {
        let first = fragment_from(packets, full, plan, pos);
        let rest = fragments_from(packets, full, plan, first.1, (count - 1) as nat);
        (first.0 + rest.0, rest.1)
    }
}

/// The positions in `from .. to` whose packets belong to a selected stream,
/// in input order.
pub open spec fn selected_positions(packets: Seq<i32>, plan: AvPlan, from: nat, to: nat) -> Seq<nat>
    decreases to - from,
{
    if to <= from {
        Seq::empty()
    } else {
        let rest = selected_positions(packets, plan, from + 1, to);
        if spec_route(packets[from as int], plan) is Some {
            seq![from] + rest
        } else {
            rest
        }
    }
}

proof fn lemma_selected_split(packets: Seq<i32>, plan: AvPlan, a: nat, b: nat, c: nat)
    requires
        a <= b <= c,
    ensures
        selected_positions(packets, plan, a, b) + selected_positions(packets, plan, b, c)
            == selected_positions(packets, plan, a, c),
    decreases b - a,
{
    if a < b {
        lemma_selected_split(packets, plan, a + 1, b, c);
        assert(selected_positions(packets, plan, a, b) + selected_positions(packets, plan, b, c)
            =~= selected_positions(packets, plan, a, c));
    } else {
        assert(selected_positions(packets, plan, a, b) + selected_positions(packets, plan, b, c)
            =~= selected_positions(packets, plan, a, c));
    }
}

proof fn lemma_selected_bounds(packets: Seq<i32>, plan: AvPlan, from: nat, to: nat)
    ensures
        forall|i: int|
            0 <= i < selected_positions(packets, plan, from, to).len() ==> from <= #[trigger] selected_positions(
                packets,
                plan,
                from,
                to,
            )[i] < to,
        forall|i: int, j: int|
            0 <= i < j < selected_positions(packets, plan, from, to).len() ==> selected_positions(
                packets,
                plan,
                from,
                to,
            )[i] < selected_positions(packets, plan, from, to)[j],
    decreases to - from,
{
    if from < to {
        lemma_selected_bounds(packets, plan, from + 1, to);
        let s = selected_positions(packets, plan, from, to);
        let rest = selected_positions(packets, plan, from + 1, to);
        if spec_route(packets[from as int], plan) is Some {
            assert(s == seq![from] + rest);
            assert forall|i: int| 0 < i < s.len() implies s[i] == rest[i - 1] && from < s[i] by {}
        }
    }
}

proof fn lemma_fragment_from(packets: Seq<i32>, full: Seq<bool>, plan: AvPlan, pos: nat)
    requires
        pos <= packets.len(),
    ensures
        pos <= fragment_from(packets, full, plan, pos).1 <= packets.len(),
        pos < packets.len() ==> pos < fragment_from(packets, full, plan, pos).1,
        fragment_from(packets, full, plan, pos).0 == selected_positions(
            packets,
            plan,
            pos,
            fragment_from(packets, full, plan, pos).1,
        ),
    decreases packets.len() - pos,
{
    if pos < packets.len() {
        lemma_fragment_from(packets, full, plan, pos + 1);
        let r = fragment_from(packets, full, plan, pos + 1);
        assert(selected_positions(packets, plan, pos + 1, pos + 1) =~= Seq::<nat>::empty());
        if spec_route(packets[pos as int], plan) is Some {
            assert(seq![pos] + r.0 =~= selected_positions(packets, plan, pos, r.1));
            assert(seq![pos] =~= selected_positions(packets, plan, pos, pos + 1));
        }
    } else {
        assert(selected_positions(packets, plan, pos, pos) =~= Seq::<nat>::empty());
    }
}

proof fn lemma_fragments_from(packets: Seq<i32>, full: Seq<bool>, plan: AvPlan, pos: nat, count: nat)
    requires
        pos <= packets.len(),
    ensures
        pos <= fragments_from(packets, full, plan, pos, count).1 <= packets.len(),
        fragments_from(packets, full, plan, pos, count).0 == selected_positions(
            packets,
            plan,
            pos,
            fragments_from(packets, full, plan, pos, count).1,
        ),
    decreases count,
{
    if count == 0 {
        assert(selected_positions(packets, plan, pos, pos) =~= Seq::<nat>::empty());
    } else {
        lemma_fragment_from(packets, full, plan, pos);
        let first = fragment_from(packets, full, plan, pos);
        lemma_fragments_from(packets, full, plan, first.1, (count - 1) as nat);
        let rest = fragments_from(packets, full, plan, first.1, (count - 1) as nat);
        lemma_selected_split(packets, plan, pos, first.1, rest.1);
    }
}

/// Fragments made one after another from the start of the input lose and
/// repeat no packet: the positions they write, concatenated in fragment
/// order, are exactly the positions of the selected packets of a prefix of
/// the input, in input order, each once; and each fragment starts reading
/// right after the packet at which the previous one stopped. This holds
/// whatever the output sizes that decide each cut.
pub proof fn lemma_fragments_continue(packets: Seq<i32>, full: Seq<bool>, plan: AvPlan, count: nat)
    ensures
        fragments_from(packets, full, plan, 0, count).1 <= packets.len(),
        fragments_from(packets, full, plan, 0, count).0 == selected_positions(
            packets,
            plan,
            0,
            fragments_from(packets, full, plan, 0, count).1,
        ),
        forall|i: int, j: int|
            0 <= i < j < fragments_from(packets, full, plan, 0, count).0.len() ==> fragments_from(
                packets,
                full,
                plan,
                0,
                count,
            ).0[i] < fragments_from(packets, full, plan, 0, count).0[j],
        count > 0 ==> fragments_from(packets, full, plan, 0, count) == ({
            let before = fragments_from(packets, full, plan, 0, (count - 1) as nat);
            let last = fragment_from(packets, full, plan, before.1);
            (before.0 + last.0, last.1)
        }),
{
    lemma_fragments_from(packets, full, plan, 0, count);
    lemma_selected_bounds(packets, plan, 0, fragments_from(packets, full, plan, 0, count).1);
    if count > 0 {
        lemma_fragments_append(packets, full, plan, 0, (count - 1) as nat);
    }
}

proof fn lemma_fragments_append(packets: Seq<i32>, full: Seq<bool>, plan: AvPlan, pos: nat, count: nat)
    ensures
        fragments_from(packets, full, plan, pos, count + 1) == ({
            let before = fragments_from(packets, full, plan, pos, count);
            let last = fragment_from(packets, full, plan, before.1);
            (before.0 + last.0, last.1)
        }),
    decreases count,
{
    if count == 0 {
        let first = fragment_from(packets, full, plan, pos);
        assert(fragments_from(packets, full, plan, first.1, 0) == (Seq::<nat>::empty(), first.1));
        assert(first.0 + Seq::<nat>::empty() =~= first.0);
        assert(Seq::<nat>::empty() + first.0 =~= first.0);
        assert(fragments_from(packets, full, plan, pos, 0) == (Seq::<nat>::empty(), pos));
    } else {
        let first = fragment_from(packets, full, plan, pos);
        lemma_fragments_append(packets, full, plan, first.1, (count - 1) as nat);
        let before = fragments_from(packets, full, plan, first.1, (count - 1) as nat);
        let last = fragment_from(packets, full, plan, before.1);
        assert(first.0 + (before.0 + last.0) =~= (first.0 + before.0) + last.0);
        assert(fragments_from(packets, full, plan, pos, count) == (first.0 + before.0, before.1));
        assert(fragments_from(packets, full, plan, pos, count + 1) == (first.0 + (before.0 + last.0), last.1));
    }
}

} // verus!
