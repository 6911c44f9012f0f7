//! Encoder bookkeeping: the FFmpeg command line, frame sizes and progress.

use crate::text::{decimal_chars, lemma_decimal_injective, push_decimal};
use vstd::prelude::*;
use vstd::string::StringExecFns;

verus! {

/// FFmpeg encoder configuration
#[derive(Debug, Clone)]
pub struct FFmpegConfig {
    /// Output video path
    pub output_path: String,
    /// Video width
    pub width: u32,
    /// Video height
    pub height: u32,
    /// Frame rate
    pub fps: u32,
    /// Quality (lower = better quality, 18-28 typical)
    pub cq: u32,
}

impl Default for FFmpegConfig {
    fn default() -> (r: Self)
        ensures
            r.output_path@ == "output.mp4"@,
            r.width == 1920,
            r.height == 1080,
            r.fps == 60,
            r.cq == 22,
    {
        Self { output_path: "output.mp4".to_string(), width: 1920, height: 1080, fps: 60, cq: 22 }
    }
}

/// The command that starts FFmpeg: raw RGBA frames of the configured size
/// and rate come in on stdin and leave as H.264 (NVENC) in `output_path`.
pub open spec fn ffmpeg_command_line(c: FFmpegConfig) -> Seq<char> {
    "ffmpeg -y -f rawvideo -pixel_format rgba -video_size "@ + decimal_chars(c.width as nat) + "x"@
        + decimal_chars(c.height as nat) + " -framerate "@ + decimal_chars(c.fps as nat)
        + " -i - -c:v h264_nvenc -preset p7 -tune hq -rc vbr -cq "@ + decimal_chars(c.cq as nat)
        + " -pix_fmt yuv420p -movflags +faststart "@ + c.output_path@
}

/// Build the FFmpeg command line for `config`.
pub fn ffmpeg_command(config: &FFmpegConfig) -> (r: String)
    ensures
        r@ == ffmpeg_command_line(*config),
{
    let mut cmd = String::new();
    cmd.append("ffmpeg -y -f rawvideo -pixel_format rgba -video_size ");
    push_decimal(&mut cmd, config.width as u64);
    cmd.append("x");
    push_decimal(&mut cmd, config.height as u64);
    cmd.append(" -framerate ");
    push_decimal(&mut cmd, config.fps as u64);
    cmd.append(" -i - -c:v h264_nvenc -preset p7 -tune hq -rc vbr -cq ");
    push_decimal(&mut cmd, config.cq as u64);
    cmd.append(" -pix_fmt yuv420p -movflags +faststart ");
    cmd.append(config.output_path.as_str());
    assert(cmd@ =~= ffmpeg_command_line(*config));
    cmd
}

/// `needle` occurs in `hay` starting at index `k`.
pub open spec fn occurs_at(hay: Seq<char>, needle: Seq<char>, k: int) -> bool {
    &&& 0 <= k
    &&& k + needle.len() <= hay.len()
    &&& hay.subrange(k, k + needle.len()) == needle
}

/// The command runs `ffmpeg`, gives the frame size and rate as
/// `-video_size WIDTHxHEIGHT -framerate FPS -i`, the quality as
/// `-cq CQ -pix_fmt`, with every number written out in decimal, and ends with
/// a space and the output path.
pub proof fn lemma_ffmpeg_command_fields(c: FFmpegConfig)
    ensures
        ffmpeg_command_line(c).subrange(0, 7) == "ffmpeg "@,
        exists|k: int|
            occurs_at(
                ffmpeg_command_line(c),
                "-video_size "@ + decimal_chars(c.width as nat) + "x"@ + decimal_chars(c.height as nat)
                    + " -framerate "@ + decimal_chars(c.fps as nat) + " -i "@,
                k,
            ),
        exists|k: int| occurs_at(ffmpeg_command_line(c), "-cq "@ + decimal_chars(c.cq as nat) + " -pix_fmt "@, k),
        occurs_at(
            ffmpeg_command_line(c),
            " "@ + c.output_path@,
            ffmpeg_command_line(c).len() - c.output_path@.len() - 1,
        ),
{
    reveal_strlit("ffmpeg -y -f rawvideo -pixel_format rgba -video_size ");
    reveal_strlit(" -i - -c:v h264_nvenc -preset p7 -tune hq -rc vbr -cq ");
    reveal_strlit(" -pix_fmt yuv420p -movflags +faststart ");
    reveal_strlit("ffmpeg ");
    reveal_strlit("-video_size ");
    reveal_strlit(" -i ");
    reveal_strlit("-cq ");
    reveal_strlit(" -pix_fmt ");
    reveal_strlit(" ");
    let cmd = ffmpeg_command_line(c);
    let p1 = "ffmpeg -y -f rawvideo -pixel_format rgba -video_size "@;
    let p2 = " -i - -c:v h264_nvenc -preset p7 -tune hq -rc vbr -cq "@;
    let p3 = " -pix_fmt yuv420p -movflags +faststart "@;
    let dw = decimal_chars(c.width as nat);
    let dh = decimal_chars(c.height as nat);
    let df = decimal_chars(c.fps as nat);
    let dq = decimal_chars(c.cq as nat);
    let path = c.output_path@;
    assert(cmd =~= p1 + dw + "x"@ + dh + " -framerate "@ + df + p2 + dq + p3 + path);
    assert(cmd.subrange(0, 7) =~= "ffmpeg "@);
    let n1 = "-video_size "@ + dw + "x"@ + dh + " -framerate "@ + df + " -i "@;
    let k1 = p1.len() - 12;
    assert(cmd.subrange(k1, k1 + n1.len()) =~= n1);
    let n2 = "-cq "@ + dq + " -pix_fmt "@;
    let k2 = (p1 + dw + "x"@ + dh + " -framerate "@ + df + p2).len() - 4;
    assert(cmd.subrange(k2, k2 + n2.len()) =~= n2);
    assert(occurs_at(cmd, n1, k1));
    assert(occurs_at(cmd, n2, k2));
    assert(cmd.subrange(cmd.len() - path.len() - 1, cmd.len() as int) =~= " "@ + path);
}

/// What stands between the same prefix and the same suffix is determined by
/// the whole.
proof fn lemma_cancel_middle(x: Seq<char>, a: Seq<char>, b: Seq<char>, y: Seq<char>)
    requires
        x + a + y == x + b + y,
    ensures
        a == b,
{
    let s = x + a + y;
    assert((x + a + y).len() == x.len() + a.len() + y.len());
    assert((x + b + y).len() == x.len() + b.len() + y.len());
    assert(a.len() == b.len());
    assert forall|i: int| 0 <= i < a.len() implies a[i] == b[i] by {
        assert(s[x.len() + i] == (x + a + y)[x.len() + i]);
        assert(s[x.len() + i] == (x + b + y)[x.len() + i]);
    }
    assert(a =~= b);
}

/// Every setting reaches the command: among configurations that agree on all
/// other settings, two give the same command exactly when they agree on the
/// width, and likewise for the height, the frame rate, the quality and the
/// output path.
pub proof fn lemma_ffmpeg_command_distinguishes_settings(c1: FFmpegConfig, c2: FFmpegConfig)
    ensures
        c1.height == c2.height && c1.fps == c2.fps && c1.cq == c2.cq && c1.output_path@ == c2.output_path@
            ==> (ffmpeg_command_line(c1) == ffmpeg_command_line(c2) <==> c1.width == c2.width),
        c1.width == c2.width && c1.fps == c2.fps && c1.cq == c2.cq && c1.output_path@ == c2.output_path@
            ==> (ffmpeg_command_line(c1) == ffmpeg_command_line(c2) <==> c1.height == c2.height),
        c1.width == c2.width && c1.height == c2.height && c1.cq == c2.cq && c1.output_path@ == c2.output_path@
            ==> (ffmpeg_command_line(c1) == ffmpeg_command_line(c2) <==> c1.fps == c2.fps),
        c1.width == c2.width && c1.height == c2.height && c1.fps == c2.fps && c1.output_path@ == c2.output_path@
            ==> (ffmpeg_command_line(c1) == ffmpeg_command_line(c2) <==> c1.cq == c2.cq),
        c1.width == c2.width && c1.height == c2.height && c1.fps == c2.fps && c1.cq == c2.cq
            ==> (ffmpeg_command_line(c1) == ffmpeg_command_line(c2) <==> c1.output_path@ == c2.output_path@),
{
    let p1 = "ffmpeg -y -f rawvideo -pixel_format rgba -video_size "@;
    let p2 = " -i - -c:v h264_nvenc -preset p7 -tune hq -rc vbr -cq "@;
    let p3 = " -pix_fmt yuv420p -movflags +faststart "@;
    let cmd1 = ffmpeg_command_line(c1);
    let cmd2 = ffmpeg_command_line(c2);
    let w1 = decimal_chars(c1.width as nat);
    let w2 = decimal_chars(c2.width as nat);
    let h1 = decimal_chars(c1.height as nat);
    let h2 = decimal_chars(c2.height as nat);
    let f1 = decimal_chars(c1.fps as nat);
    let f2 = decimal_chars(c2.fps as nat);
    let q1 = decimal_chars(c1.cq as nat);
    let q2 = decimal_chars(c2.cq as nat);
    lemma_decimal_injective(c1.width as nat, c2.width as nat);
    lemma_decimal_injective(c1.height as nat, c2.height as nat);
    lemma_decimal_injective(c1.fps as nat, c2.fps as nat);
    lemma_decimal_injective(c1.cq as nat, c2.cq as nat);
    if c1.height == c2.height && c1.fps == c2.fps && c1.cq == c2.cq && c1.output_path@ == c2.output_path@
        && cmd1 == cmd2 {
        let y = "x"@ + h1 + " -framerate "@ + f1 + p2 + q1 + p3 + c1.output_path@;
        assert(cmd1 =~= p1 + w1 + y);
        assert(cmd2 =~= p1 + w2 + y);
        lemma_cancel_middle(p1, w1, w2, y);
    }
    if c1.width == c2.width && c1.fps == c2.fps && c1.cq == c2.cq && c1.output_path@ == c2.output_path@
        && cmd1 == cmd2 {
        let x = p1 + w1 + "x"@;
        let y = " -framerate "@ + f1 + p2 + q1 + p3 + c1.output_path@;
        assert(cmd1 =~= x + h1 + y);
        assert(cmd2 =~= x + h2 + y);
        lemma_cancel_middle(x, h1, h2, y);
    }
    if c1.width == c2.width && c1.height == c2.height && c1.cq == c2.cq && c1.output_path@ == c2.output_path@
        && cmd1 == cmd2 {
        let x = p1 + w1 + "x"@ + h1 + " -framerate "@;
        let y = p2 + q1 + p3 + c1.output_path@;
        assert(cmd1 =~= x + f1 + y);
        assert(cmd2 =~= x + f2 + y);
        lemma_cancel_middle(x, f1, f2, y);
    }
    if c1.width == c2.width && c1.height == c2.height && c1.fps == c2.fps && c1.output_path@ == c2.output_path@
        && cmd1 == cmd2 {
        let x = p1 + w1 + "x"@ + h1 + " -framerate "@ + f1 + p2;
        let y = p3 + c1.output_path@;
        assert(cmd1 =~= x + q1 + y);
        assert(cmd2 =~= x + q2 + y);
        lemma_cancel_middle(x, q1, q2, y);
    }
    if c1.width == c2.width && c1.height == c2.height && c1.fps == c2.fps && c1.cq == c2.cq && cmd1 == cmd2 {
        let x = p1 + w1 + "x"@ + h1 + " -framerate "@ + f1 + p2 + q1 + p3;
        let e = Seq::<char>::empty();
        assert(cmd1 =~= x + c1.output_path@ + e);
        assert(cmd2 =~= x + c2.output_path@ + e);
        lemma_cancel_middle(x, c1.output_path@, c2.output_path@, e);
    }
}

/// Bytes in one RGBA frame of `width` x `height` pixels.
pub fn frame_size(width: u32, height: u32) -> (r: usize)
    requires
        (width as int) * (height as int) * 4 <= u32::MAX,
    ensures
        r == (width as int) * (height as int) * 4,
{
    (width * height * 4) as usize
}

/// A frame whose length is not the encoder's frame size.
#[derive(Debug, Clone, Copy, PartialEq, Eq, Structural)]
pub struct FrameSizeMismatch {
    pub expected: usize,
    pub got: usize,
}

impl FrameSizeMismatch {
    /// The text that reports the mismatch.
    pub open spec fn message_text(&self) -> Seq<char> {
        "Frame size mismatch: expected "@ + decimal_chars(self.expected as nat) + " bytes, got "@
            + decimal_chars(self.got as nat)
    }

    /// Describe the mismatch.
    pub fn message(&self) -> (r: String)
        ensures
            r@ == self.message_text(),
    {
        let mut msg = String::new();
        msg.append("Frame size mismatch: expected ");
        push_decimal(&mut msg, self.expected as u64);
        msg.append(" bytes, got ");
        push_decimal(&mut msg, self.got as u64);
        assert(msg@ =~= self.message_text());
        msg
    }
}

/// Accept a frame of `len` bytes for an encoder whose frames hold
/// `frame_size` bytes.
pub fn check_frame_len(frame_size: usize, len: usize) -> (r: Result<(), FrameSizeMismatch>)
    ensures
        r.is_ok() == (len == frame_size),
        r.is_err() ==> r == Err::<(), FrameSizeMismatch>((FrameSizeMismatch { expected: frame_size, got: len })),
{
    if len != frame_size {
        Err(FrameSizeMismatch { expected: frame_size, got: len })
    } else {
        Ok(())
    }
}

/// Progress tracker for encoding
#[derive(Debug, Clone, Copy)]
pub struct EncodingProgress {
    pub total_frames: u32,
    pub current_frame: u32,
}

impl EncodingProgress {
    /// The tracker that `new` makes.
    pub open spec fn new_spec(total_frames: u32) -> EncodingProgress {
        EncodingProgress { total_frames, current_frame: 0 }
    }

    /// The tracker after `update` counted one more frame.
    pub open spec fn updated(&self) -> EncodingProgress {
        EncodingProgress { total_frames: self.total_frames, current_frame: (self.current_frame + 1) as u32 }
    }

    /// All frames have been counted.
    pub open spec fn complete(&self) -> bool {
        self.current_frame >= self.total_frames
    }

    /// A tracker for `total_frames` frames, none of them done.
    pub fn new(total_frames: u32) -> (r: Self)
        ensures
            r == Self::new_spec(total_frames),
    {
        Self { total_frames, current_frame: 0 }
    }

    /// Count one more frame.
    pub fn update(&mut self)
        requires
            old(self).current_frame < u32::MAX,
        ensures
            *final(self) == old(self).updated(),
            final(self).current_frame == old(self).current_frame + 1,
    {
        self.current_frame += 1;
    }

    /// Whether every frame has been counted.
    pub fn is_complete(&self) -> (r: bool)
        ensures
            r == self.complete(),
    {
        self.current_frame >= self.total_frames
    }
}

/// Frames between two progress reports while encoding.
pub const PROGRESS_REPORT_INTERVAL: u32 = 60;

/// What the encoding loop does next.
#[derive(Debug, Clone, Copy, PartialEq, Eq, Structural)]
pub enum EncodeStep {
    /// Render frame `frame`, hand it to the encoder, count it, and report
    /// progress afterwards when `report_progress` is set.
    RenderFrame { frame: u32, report_progress: bool },
    /// Every frame has been encoded: close the encoder.
    Finish,
}

impl EncodingProgress {
    /// The step that follows this state: the next frame while frames remain,
    /// with a progress report on every sixtieth frame starting at the first,
    /// and then the end of encoding.
    pub open spec fn next_step_spec(&self) -> EncodeStep {
        if self.current_frame < self.total_frames {
            EncodeStep::RenderFrame {
                frame: self.current_frame,
                report_progress: self.current_frame % PROGRESS_REPORT_INTERVAL == 0,
            }
        } else {
            EncodeStep::Finish
        }
    }

    /// Decide the next step of the encoding loop.
    pub fn next_step(&self) -> (r: EncodeStep)
        ensures
            r == self.next_step_spec(),
    {
        if self.current_frame < self.total_frames {
            EncodeStep::RenderFrame {
                frame: self.current_frame,
                report_progress: self.current_frame % PROGRESS_REPORT_INTERVAL == 0,
            }
        } else {
            EncodeStep::Finish
        }
    }
}

/// The state reached from a fresh tracker after `k` frames were counted.
pub open spec fn progress_after(total: u32, k: u32) -> EncodingProgress {
    EncodingProgress { total_frames: total, current_frame: k }
}

/// Driven from a fresh tracker, the loop renders frames `0, 1, ..., total - 1`
/// in order, each once, and finishes right after the last one: the step after
/// `k` counted frames renders frame `k` while `k < total`, and is `Finish`
/// once `k` reaches `total`.
pub proof fn lemma_encoding_schedule(total: u32, k: u32)
    requires
        k <= total,
    ensures
        EncodingProgress::new_spec(total) == progress_after(total, 0),
        k < total ==> progress_after(total, k).next_step_spec() == (EncodeStep::RenderFrame {
            frame: k,
            report_progress: k % 60 == 0,
        }),
        k < total ==> progress_after(total, k).updated() == progress_after(total, (k + 1) as u32),
        progress_after(total, total).next_step_spec() == EncodeStep::Finish,
        progress_after(total, total).complete(),
        k < total ==> !progress_after(total, k).complete(),
{
}

/// Completion is never lost: a complete tracker stays complete however many
/// more frames it counts, and a fresh tracker is incomplete exactly when it
/// expects at least one frame.
pub proof fn lemma_progress_completes(p: EncodingProgress, more: u32)
    requires
        p.current_frame + more <= u32::MAX,
    ensures
        p.complete() ==> (EncodingProgress {
            total_frames: p.total_frames,
            current_frame: (p.current_frame + more) as u32,
        }).complete(),
        !(EncodingProgress { total_frames: p.total_frames, current_frame: 0 }).complete()
            <==> p.total_frames > 0,
{
}

} // verus!
