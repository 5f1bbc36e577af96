//! Plans for turning a raw HEVC stream into MP4 with ffmpeg: which encoders to try
//! and in which order, the arguments of each run, how failures are reported, and
//! which hardware encoder the machine offers.

use crate::text::{contains_text, same_text};
use vstd::prelude::*;
use vstd::string::*;

verus! {

/// An I/O failure of kind "other", carrying its message.
#[derive(Debug)]
pub struct OtherIoError {
    pub message: String,
}

/// The failure of kind "other" that reports `message`.
pub fn io_other(message: String) -> (e: OtherIoError)
    ensures
        e.message@ == message@,
{
    OtherIoError { message }
}

/// The result of starting the media library, given how its one-time initialisation
/// ended: its failure is reported as `ffmpeg init failed: ` and the cause.
pub fn init_outcome(init: &Result<(), String>) -> (r: Result<(), OtherIoError>)
    ensures
        match init {
            Ok(()) => r is Ok,
            Err(cause) => r matches Err(e) && e.message@ == "ffmpeg init failed: "@ + cause@,
        },
{
    match init {
        Ok(()) => Ok(()),
        Err(cause) => {
            let mut message = String::from_str("ffmpeg init failed: ");
            message.append(cause.as_str());
            Err(io_other(message))
        },
    }
}

/// How the one-time start of the media library ended, once it was attempted.
pub struct FfmpegInit {
    outcome: Option<Result<(), String>>,
}

impl View for FfmpegInit {
    type V = Option<Result<(), Seq<char>>>;

    closed spec fn view(&self) -> Option<Result<(), Seq<char>>> {
        match self.outcome {
            Some(Ok(())) => Some(Ok(())),
            Some(Err(cause)) => Some(Err(cause@)),
            None => None,
        }
    }
}

/// What every start of the media library returns once the one-time start ended
/// with `outcome`.
pub open spec fn init_result_matches(r: Result<(), OtherIoError>, outcome: Result<(), Seq<char>>) -> bool {
    match outcome {
        Ok(()) => r is Ok,
        Err(cause) => r matches Err(e) && e.message@ == "ffmpeg init failed: "@ + cause,
    }
}

impl FfmpegInit {
    /// Nothing attempted yet.
    pub fn new() -> (s: Self)
        ensures
            s@ is None,
    {
        FfmpegInit { outcome: None }
    }

    /// Whether the one-time start was already attempted.
    pub fn is_done(&self) -> (r: bool)
        ensures
            r == self@ is Some,
    {
        self.outcome.is_some()
    }
}

/// Starts the media library once per process. The first call records `attempt`,
/// how the one start ended; every call, the first included, answers from that
/// record, and later calls ignore `attempt`.
pub fn ensure_ffmpeg_init(state: &mut FfmpegInit, attempt: Option<Result<(), String>>) -> (r: Result<(), OtherIoError>)
    requires
        old(state)@ is None ==> attempt is Some,
    ensures
        old(state)@ is Some ==> final(state)@ == old(state)@,
        old(state)@ is None ==> final(state)@ == Some(
            match attempt->0 {
                Ok(()) => Ok(()),
                Err(cause) => Err(cause@),
            },
        ),
        final(state)@ matches Some(outcome) && init_result_matches(r, outcome),
{
    if state.outcome.is_none() {
        match attempt {
            Some(a) => {
                state.outcome = Some(a);
            },
            None => {},
        }
    }
    match &state.outcome {
        Some(outcome) => init_outcome(outcome),
        None => Ok(()),
    }
}

/// The hardware encoder looked for.
pub open spec fn nvenc() -> Seq<char> {
    "h264_nvenc"@
}

/// The software encoder that is always tried last.
pub open spec fn libx264() -> Seq<char> {
    "libx264"@
}

/// The hardware encoder offered by a machine whose encoder listing is `listing`
/// (`None`: the listing could not be had): NVENC when the listing names it.
pub open spec fn offered_gpu_encoder(listing: Option<Seq<char>>) -> Option<Seq<char>> {
    match listing {
        Some(l) => if crate::text::has_infix(l, nvenc()) {
            Some(nvenc())
        } else {
            None
        },
        None => None,
    }
}

/// Looks for a hardware encoder in the text that `ffmpeg -encoders` printed.
pub fn detect_gpu_encoder(listing: Option<&str>) -> (r: Option<String>)
    ensures
        r is Some == offered_gpu_encoder(
            match listing {
                Some(l) => Some(l@),
                None => None,
            },
        ) is Some,
        r is Some ==> r->0@ == nvenc(),
{
    match listing {
        Some(text) => {
            if contains_text(text, "h264_nvenc") {
                Some(String::from_str("h264_nvenc"))
            } else {
                None
            }
        },
        None => None,
    }
}

/// The hardware encoder once it was looked for; the lookup happens once per process.
pub struct GpuEncoderCache {
    value: Option<Option<String>>,
}

impl View for GpuEncoderCache {
    type V = Option<Option<Seq<char>>>;

    closed spec fn view(&self) -> Option<Option<Seq<char>>> {
        match self.value {
            Some(Some(s)) => Some(Some(s@)),
            Some(None) => Some(None),
            None => None,
        }
    }
}

impl GpuEncoderCache {
    /// A cache that has not looked yet.
    pub fn new() -> (c: Self)
        ensures
            c@ is None,
    {
        GpuEncoderCache { value: None }
    }

    /// Whether the lookup already happened.
    pub fn is_initialized(&self) -> (r: bool)
        ensures
            r == self@ is Some,
    {
        self.value.is_some()
    }
}

/// The hardware encoder to prefer: the one found by the first lookup. The first call
/// looks in `listing`; later calls give the same answer and ignore `listing`.
pub fn preferred_gpu_encoder(cache: &mut GpuEncoderCache, listing: Option<&str>) -> (r: Option<String>)
    ensures
        old(cache)@ is Some ==> final(cache)@ == old(cache)@,
        old(cache)@ is None ==> final(cache)@ == Some(
            offered_gpu_encoder(
                match listing {
                    Some(l) => Some(l@),
                    None => None,
                },
            ),
        ),
        final(cache)@ matches Some(v) && (match r {
            Some(s) => v == Some(s@),
            None => v is None,
        }),
{
    match &cache.value {
        Some(Some(s)) => {
            return Some(s.clone());
        },
        Some(None) => {
            return None;
        },
        None => {},
    }
    let found = detect_gpu_encoder(listing);
    let answer = match &found {
        Some(s) => Some(s.clone()),
        None => None,
    };
    cache.value = Some(found);
    answer
}

/// A character with the Unicode `White_Space` property, which `char::is_whitespace`
/// tests.
pub open spec fn is_unicode_whitespace(c: char) -> bool {
    let u = c as u32;
    ||| 0x9 <= u <= 0xD
    ||| u == 0x20
    ||| u == 0x85
    ||| u == 0xA0
    ||| u == 0x1680
    ||| 0x2000 <= u <= 0x200A
    ||| u == 0x2028
    ||| u == 0x2029
    ||| u == 0x202F
    ||| u == 0x205F
    ||| u == 0x3000
}

/// `s` without its leading whitespace.
pub open spec fn without_leading_whitespace(s: Seq<char>) -> Seq<char>
    decreases s.len(),
{
    if s.len() > 0 && is_unicode_whitespace(s[0]) {
        without_leading_whitespace(s.drop_first())
    } else {
        s
    }
}

/// `s` without its trailing whitespace.
pub open spec fn without_trailing_whitespace(s: Seq<char>) -> Seq<char>
    decreases s.len(),
{
    if s.len() > 0 && is_unicode_whitespace(s.last()) {
        without_trailing_whitespace(s.drop_last())
    } else {
        s
    }
}

/// The leading and trailing whitespace of `s` removed, as `str::trim` does it.
pub open spec fn whitespace_trimmed(s: Seq<char>) -> Seq<char> {
    without_trailing_whitespace(without_leading_whitespace(s))
}

/// Calls `str::trim`, which removes the leading and trailing characters that
/// `char::is_whitespace` (the Unicode `White_Space` property) accepts.
#[verifier::external_body]
fn trim_whitespace(s: &str) -> (t: &str)
    ensures
        t@ == whitespace_trimmed(s@),
{
    s.trim()
}

/// The encoders to try, in order, given the encoder forced by configuration
/// (`forced`, the configured text when there is one) and the hardware encoder found:
/// a forced encoder that is not blank, else the hardware one when none is forced;
/// then the software encoder unless it is already listed.
pub open spec fn encoder_plan(forced: Option<Seq<char>>, gpu: Option<Seq<char>>) -> Seq<Seq<char>> {
    let first = match forced {
        Some(f) => if whitespace_trimmed(f).len() > 0 {
            seq![whitespace_trimmed(f)]
        } else {
            Seq::<Seq<char>>::empty()
        },
        None => match gpu {
            Some(g) => seq![g],
            None => Seq::<Seq<char>>::empty(),
        },
    };
    if first.contains(libx264()) {
        first
    } else {
        first.push(libx264())
    }
}

/// The encoders to try. The hardware encoder matters only when none is forced.
pub fn encoders_to_try(forced: Option<&str>, gpu: Option<String>) -> (plan: Vec<String>)
    ensures
        plan@.map_values(|e: String| e@) == encoder_plan(
            match forced {
                Some(f) => Some(f@),
                None => None,
            },
            match gpu {
                Some(g) => Some(g@),
                None => None,
            },
        ),
{
    let mut plan: Vec<String> = Vec::new();
    match forced {
        Some(f) => {
            let trimmed = trim_whitespace(f);
            if trimmed.unicode_len() > 0 {
                plan.push(String::from_str(trimmed));
            }
        },
        None => {
            match gpu {
                Some(g) => plan.push(g),
                None => {},
            }
        },
    }
    let ghost first = plan@.map_values(|e: String| e@);
    let mut listed = false;
    if plan.len() > 0 {
        listed = same_text(plan[0].as_str(), "libx264");
    }
    proof {
        assert(plan.len() <= 1);
        if plan.len() == 1 {
            assert(first == seq![plan@[0]@]);
            assert(first.contains(libx264()) == (plan@[0]@ == libx264())) by {
                if first.contains(libx264()) {
                    let k = choose|k: int| 0 <= k < first.len() && first[k] == libx264();
                    assert(k == 0);
                }
                if plan@[0]@ == libx264() {
                    assert(first[0] == libx264());
                }
            }
        } else {
            assert(first =~= Seq::<Seq<char>>::empty());
        }
    }
    if !listed {
        plan.push(String::from_str("libx264"));
        proof {
            assert(plan@.map_values(|e: String| e@) =~= first.push(libx264()));
        }
    }
    plan
}

/// One argument of an ffmpeg run: a fixed text, a text of the caller, the input
/// frame rate in decimal, or one of the two paths.
#[derive(Debug)]
pub enum EncodeArg {
    Flag(&'static str),
    Value(String),
    FrameRate(u32),
    InputPath,
    OutputPath,
}

/// What an argument stands for.
pub enum ArgView {
    Text(Seq<char>),
    FrameRate(u32),
    InputPath,
    OutputPath,
}

impl View for EncodeArg {
    type V = ArgView;

    open spec fn view(&self) -> ArgView {
        match self {
            EncodeArg::Flag(s) => ArgView::Text(s@),
            EncodeArg::Value(s) => ArgView::Text(s@),
            EncodeArg::FrameRate(f) => ArgView::FrameRate(*f),
            EncodeArg::InputPath => ArgView::InputPath,
            EncodeArg::OutputPath => ArgView::OutputPath,
        }
    }
}

pub open spec fn text_arg(s: &str) -> ArgView {
    ArgView::Text(s@)
}

/// The speed preset that suits `encoder`, if it has one.
pub open spec fn preset_args(encoder: Seq<char>) -> Seq<ArgView> {
    if encoder == libx264() {
        seq![text_arg("-preset"), text_arg("veryfast")]
    } else if encoder == nvenc() {
        seq![text_arg("-preset"), text_arg("p4")]
    } else {
        Seq::empty()
    }
}

/// The arguments of an ffmpeg run that reads a raw HEVC stream at `input_fps` frames
/// per second, drops audio, encodes the video with `encoder` in yuv420p and writes an
/// MP4 whose index comes first, overwriting the output.
pub open spec fn encode_args(input_fps: u32, encoder: Seq<char>) -> Seq<ArgView> {
    seq![
        text_arg("-hide_banner"),
        text_arg("-loglevel"),
        text_arg("error"),
        text_arg("-y"),
        text_arg("-f"),
        text_arg("hevc"),
        text_arg("-framerate"),
        ArgView::FrameRate(input_fps),
        text_arg("-fflags"),
        text_arg("+genpts"),
        text_arg("-i"),
        ArgView::InputPath,
        text_arg("-an"),
        text_arg("-c:v"),
        ArgView::Text(encoder),
        text_arg("-pix_fmt"),
        text_arg("yuv420p"),
    ] + preset_args(encoder) + seq![text_arg("-movflags"), text_arg("+faststart"), ArgView::OutputPath]
}

/// The arguments of one ffmpeg run with `encoder`.
pub fn ffmpeg_encode_args(input_fps: u32, encoder: &str) -> (args: Vec<EncodeArg>)
    ensures
        args@.map_values(|a: EncodeArg| a@) == encode_args(input_fps, encoder@),
{
    let mut args: Vec<EncodeArg> = Vec::new();
    args.push(EncodeArg::Flag("-hide_banner"));
    args.push(EncodeArg::Flag("-loglevel"));
    args.push(EncodeArg::Flag("error"));
    args.push(EncodeArg::Flag("-y"));
    args.push(EncodeArg::Flag("-f"));
    args.push(EncodeArg::Flag("hevc"));
    args.push(EncodeArg::Flag("-framerate"));
    args.push(EncodeArg::FrameRate(input_fps));
    args.push(EncodeArg::Flag("-fflags"));
    args.push(EncodeArg::Flag("+genpts"));
    args.push(EncodeArg::Flag("-i"));
    args.push(EncodeArg::InputPath);
    args.push(EncodeArg::Flag("-an"));
    args.push(EncodeArg::Flag("-c:v"));
    args.push(EncodeArg::Value(String::from_str(encoder)));
    args.push(EncodeArg::Flag("-pix_fmt"));
    args.push(EncodeArg::Flag("yuv420p"));
    let ghost head = args@.map_values(|a: EncodeArg| a@);
    if same_text(encoder, "libx264") {
        args.push(EncodeArg::Flag("-preset"));
        args.push(EncodeArg::Flag("veryfast"));
    } else if same_text(encoder, "h264_nvenc") {
        args.push(EncodeArg::Flag("-preset"));
        args.push(EncodeArg::Flag("p4"));
    }
    let ghost middle = args@.map_values(|a: EncodeArg| a@);
    args.push(EncodeArg::Flag("-movflags"));
    args.push(EncodeArg::Flag("+faststart"));
    args.push(EncodeArg::OutputPath);
    proof {
        assert(middle =~= head + preset_args(encoder@));
        assert(args@.map_values(|a: EncodeArg| a@) =~= encode_args(input_fps, encoder@));
    }
    args
}

/// The result of one ffmpeg run that ended with or without success, printing
/// `stderr`: a failure reports what it printed.
pub fn encode_outcome(success: bool, stderr: String) -> (r: Result<(), OtherIoError>)
    ensures
        success ==> r is Ok,
        !success ==> (r matches Err(e) && e.message@ == stderr@),
{
    if success {
        Ok(())
    } else {
        Err(io_other(stderr))
    }
}

/// The texts of `parts` with `sep` between each two.
pub open spec fn joined(parts: Seq<Seq<char>>, sep: Seq<char>) -> Seq<char>
    decreases parts.len(),
{
    if parts.len() == 0 {
        Seq::empty()
    } else if parts.len() == 1 {
        parts[0]
    } else {
        joined(parts.drop_last(), sep) + sep + parts.last()
    }
}

/// How a failed run with `encoder` is reported among the others.
pub open spec fn failure_line(encoder: Seq<char>, error: Seq<char>) -> Seq<char> {
    encoder + ": "@ + error
}

/// The report once every encoder failed, listing the failures in the order tried.
pub open spec fn all_failed_message(failures: Seq<Seq<char>>) -> Seq<char> {
    "ffmpeg encode failed for all encoders ("@ + joined(failures, " | "@) + ")"@
}

/// What to do next in a remux: run ffmpeg with an encoder, or give up with a report.
#[derive(Debug)]
pub enum EncodeAction {
    Try(String),
    GiveUp(OtherIoError),
}

/// The progress of a remux through its encoders. Each failure is recorded; the
/// first success ends the remux.
pub struct EncodeAttempts {
    encoders: Vec<String>,
    tried: usize,
    failures: Vec<String>,
}

/// The state of a remux: the encoders planned, how many failed so far, and the
/// report line of each failure.
pub struct AttemptsView {
    pub encoders: Seq<Seq<char>>,
    pub tried: nat,
    pub failures: Seq<Seq<char>>,
}

impl View for EncodeAttempts {
    type V = AttemptsView;

    closed spec fn view(&self) -> AttemptsView {
        AttemptsView {
            encoders: self.encoders@.map_values(|e: String| e@),
            tried: self.tried as nat,
            failures: self.failures@.map_values(|e: String| e@),
        }
    }
}

impl EncodeAttempts {
    /// Exactly the encoders tried so far have a failure recorded.
    pub closed spec fn wf(self) -> bool {
        &&& self.tried <= self.encoders.len()
        &&& self.failures.len() == self.tried
    }

    /// A remux that will try `encoders` in order.
    pub fn new(encoders: Vec<String>) -> (a: Self)
        ensures
            a.wf(),
            a@.encoders == encoders@.map_values(|e: String| e@),
            a@.tried == 0,
            a@.failures == Seq::<Seq<char>>::empty(),
    {
        let a = EncodeAttempts { encoders, tried: 0, failures: Vec::new() };
        assert(a.failures@.map_values(|e: String| e@) =~= Seq::<Seq<char>>::empty());
        a
    }

    /// The remux that tries the planned encoders: see `encoders_to_try`.
    pub fn for_remux(forced: Option<&str>, gpu: Option<String>) -> (a: Self)
        ensures
            a.wf(),
            a@.encoders == encoder_plan(
                match forced {
                    Some(f) => Some(f@),
                    None => None,
                },
                match gpu {
                    Some(g) => Some(g@),
                    None => None,
                },
            ),
            a@.tried == 0,
            a@.failures == Seq::<Seq<char>>::empty(),
    {
        EncodeAttempts::new(encoders_to_try(forced, gpu))
    }

    /// The next step: the next untried encoder, or, once all failed, the report of
    /// every failure.
    pub fn next_action(&self) -> (act: EncodeAction)
        requires
            self.wf(),
        ensures
            self@.tried < self@.encoders.len() ==> (act matches EncodeAction::Try(e) && e@
                == self@.encoders[self@.tried as int]),
            self@.tried >= self@.encoders.len() ==> (act matches EncodeAction::GiveUp(err)
                && err.message@ == all_failed_message(self@.failures)),
    {
        if self.tried < self.encoders.len() {
            EncodeAction::Try(self.encoders[self.tried].clone())
        } else {
            let mut message = String::from_str("ffmpeg encode failed for all encoders (");
            let mut i: usize = 0;
            while i < self.failures.len()
                invariant
                    i <= self.failures.len(),
                    message@ == "ffmpeg encode failed for all encoders ("@ + joined(
                        self.failures@.map_values(|e: String| e@).take(i as int),
                        " | "@,
                    ),
                decreases self.failures.len() - i,
            {
                let ghost parts = self.failures@.map_values(|e: String| e@);
                proof {
                    assert(parts.take(i + 1).drop_last() =~= parts.take(i as int));
                    assert(parts.take(i + 1).last() == self.failures@[i as int]@);
                }
                if i > 0 {
                    message.append(" | ");
                }
                message.append(self.failures[i].as_str());
                proof {
                    if i == 0 {
                        assert(parts.take(1) =~= seq![self.failures@[0]@]);
                        assert(parts.take(0) =~= Seq::<Seq<char>>::empty());
                    }
                }
                i = i + 1;
            }
            proof {
                assert(self.failures@.map_values(|e: String| e@).take(self.failures.len() as int)
                    =~= self.failures@.map_values(|e: String| e@));
            }
            message.append(")");
            EncodeAction::GiveUp(io_other(message))
        }
    }

    /// Records that the encoder just tried failed with `error`.
    pub fn record_failure(&mut self, error: &str)
        requires
            old(self).wf(),
            old(self)@.tried < old(self)@.encoders.len(),
        ensures
            final(self).wf(),
            final(self)@.encoders == old(self)@.encoders,
            final(self)@.tried == old(self)@.tried + 1,
            final(self)@.failures == old(self)@.failures.push(
                failure_line(old(self)@.encoders[old(self)@.tried as int], error@),
            ),
    {
        let mut line = self.encoders[self.tried].clone();
        line.append(": ");
        line.append(error);
        self.failures.push(line);
        self.tried = self.tried + 1;
        proof {
            assert(self.failures@.map_values(|e: String| e@) =~= old(self)@.failures.push(
                failure_line(old(self)@.encoders[old(self)@.tried as int], error@),
            ));
        }
    }
}

/// Every plan ends with the software encoder, lists no encoder twice, and holds at
/// most two encoders; a forced encoder that is not blank comes first.
pub proof fn lemma_plan_shape(forced: Option<Seq<char>>, gpu: Option<Seq<char>>)
    ensures
        encoder_plan(forced, gpu).len() >= 1,
        encoder_plan(forced, gpu).len() <= 2,
        encoder_plan(forced, gpu).last() == libx264(),
        encoder_plan(forced, gpu).len() == 2 ==> encoder_plan(forced, gpu)[0] != encoder_plan(
            forced,
            gpu,
        )[1],
        (forced is Some && whitespace_trimmed(forced->0).len() > 0) ==> encoder_plan(forced, gpu)[0]
            == whitespace_trimmed(forced->0),
        forced is None && gpu is Some ==> encoder_plan(forced, gpu)[0] == gpu->0,
{
    let first = match forced {
        Some(f) => if whitespace_trimmed(f).len() > 0 {
            seq![whitespace_trimmed(f)]
        } else {
            Seq::<Seq<char>>::empty()
        },
        None => match gpu {
            Some(g) => seq![g],
            None => Seq::<Seq<char>>::empty(),
        },
    };
    if first.len() == 1 && first[0] == libx264() {
        assert(first.contains(libx264()));
    }
    if first.len() == 1 && first[0] != libx264() {
        assert(!first.contains(libx264()));
    }
}

} // verus!
