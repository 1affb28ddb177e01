//! The video capture actor: frame pacing, stride-aware buffer copies and the
//! decisions of one capture iteration.

use vstd::arithmetic::div_mod::lemma_fundamental_div_mod;
use vstd::arithmetic::div_mod::lemma_fundamental_div_mod_converse_div;
use vstd::arithmetic::div_mod::lemma_fundamental_div_mod_converse_mod;
use vstd::arithmetic::div_mod::lemma_remainder_lower;
use crate::util::lemma_stamps_ordered;
use crate::util::non_decreasing;
use crate::util::pts_of_micros;
use crate::util::stamps;
use crate::util::steady_clock;
use crate::util::stream_time_base;
use crate::util::TimeBase;
use crate::util::SlickscreenTime;
use crate::worker::receive_now;
use crate::worker::LoopControl;
use crate::worker::Polled;
use crate::worker::WorkerControlMessage;
use crossbeam::channel::Receiver;
use vstd::prelude::*;

verus! {

/// The time from the start of one capture iteration to the start of the
/// next, in microseconds: about a sixtieth of a second.
pub const FRAME_INTERVAL_MICROS: u64 = 16666;

/// The bytes of one captured pixel.
pub const PIXEL_SIZE: usize = 4;

/// The layout of the pixels in a frame.
#[derive(Clone, Copy, Debug, PartialEq, Eq, Structural)]
pub enum PixelLayout {
    /// Packed, four bytes a pixel: what the screen is captured in.
    Bgra,
    /// Planar with halved chroma: what the encoder takes.
    Yuv420p,
}

/// The colour space that the encoder is told of.
#[derive(Clone, Copy, Debug, PartialEq, Eq, Structural)]
pub enum ColorSpace {
    Bt709,
}

/// The range of the colour values that the encoder is told of.
#[derive(Clone, Copy, Debug, PartialEq, Eq, Structural)]
pub enum ColorRange {
    Jpeg,
}

/// The fixed configuration of the video encoder, but for the size of the
/// picture.
pub struct VideoEncoderSettings {
    pub encoder: &'static str,
    pub time_base: TimeBase,
    pub layout: PixelLayout,
    pub width: u32,
    pub height: u32,
    pub gop: u32,
    pub max_b_frames: usize,
    pub color_space: ColorSpace,
    pub color_range: ColorRange,
    pub me_range: usize,
    pub qmin: usize,
    pub qmax: usize,
    pub options: Vec<(&'static str, &'static str)>,
}

/// The named options of the video encoder, in the order in which they are
/// set.
pub open spec fn video_option_table() -> Seq<(Seq<char>, Seq<char>)> {
    seq![
        ("preset"@, "medium"@),
        ("tune"@, "zerolatency"@),
        ("level"@, "4.2"@),
        ("profile"@, "high"@),
        ("refs"@, "1"@),
        ("crf"@, "15"@),
        ("qdiff"@, "4"@),
        ("qcompress"@, "0.6"@),
        ("color_primaries"@, "bt709"@),
        ("color_trc"@, "bt709"@),
    ]
}

/// Whether `settings` is the fixed video configuration for a picture of
/// `width` by `height` pixels.
pub open spec fn is_video_configuration(settings: VideoEncoderSettings, width: u32, height: u32) -> bool {
    &&& settings.encoder@ == "libx264"@
    &&& settings.time_base == (TimeBase { numerator: 1, denominator: 1_000_000 })
    &&& settings.layout == PixelLayout::Yuv420p
    &&& settings.width == width
    &&& settings.height == height
    &&& settings.gop == 4096
    &&& settings.max_b_frames == 0
    &&& settings.color_space == ColorSpace::Bt709
    &&& settings.color_range == ColorRange::Jpeg
    &&& settings.me_range == 16
    &&& settings.qmin == 10
    &&& settings.qmax == 51
    &&& settings.options@.len() == video_option_table().len()
    &&& forall|i: int|
        0 <= i < settings.options@.len() ==> (#[trigger] settings.options@[i]).0@
            == video_option_table()[i].0 && settings.options@[i].1@ == video_option_table()[i].1
}

/// The configuration of the video encoder for a picture of `width` by
/// `height` pixels. The muxer's video stream is set up with the same values.
pub fn video_encoder_settings(width: u32, height: u32) -> (settings: VideoEncoderSettings)
    ensures
        is_video_configuration(settings, width, height),
{
    let mut options: Vec<(&'static str, &'static str)> = Vec::new();
    options.push(("preset", "medium"));
    options.push(("tune", "zerolatency"));
    options.push(("level", "4.2"));
    options.push(("profile", "high"));
    options.push(("refs", "1"));
    options.push(("crf", "15"));
    options.push(("qdiff", "4"));
    options.push(("qcompress", "0.6"));
    options.push(("color_primaries", "bt709"));
    options.push(("color_trc", "bt709"));
    VideoEncoderSettings {
        encoder: "libx264",
        time_base: stream_time_base(),
        layout: PixelLayout::Yuv420p,
        width,
        height,
        gop: 4096,
        max_b_frames: 0,
        color_space: ColorSpace::Bt709,
        color_range: ColorRange::Jpeg,
        me_range: 16,
        qmin: 10,
        qmax: 51,
        options,
    }
}

/// The messages that the video actor takes.
#[derive(Clone, Copy, Debug, PartialEq, Eq, Structural)]
pub enum VideoRecorderMessage {
    Quit,
}

impl From<WorkerControlMessage> for VideoRecorderMessage {
    fn from(msg: WorkerControlMessage) -> (message: Self) {
        match msg {
            WorkerControlMessage::Quit => VideoRecorderMessage::Quit,
        }
    }
}

impl vstd::std_specs::convert::FromSpecImpl<WorkerControlMessage> for VideoRecorderMessage {
    open spec fn obeys_from_spec() -> bool {
        true
    }

    open spec fn from_spec(msg: WorkerControlMessage) -> Self {
        VideoRecorderMessage::Quit
    }
}

/// How an attempt to capture the screen ended.
#[derive(Clone, Copy, Debug, PartialEq, Eq, Structural)]
pub enum CaptureOutcome {
    /// A frame was captured.
    Frame,
    /// The device had no new frame yet.
    NotReady,
    /// The device failed for good.
    Failed,
}

/// What the video actor does with a capture outcome.
#[derive(Clone, Copy, Debug, PartialEq, Eq, Structural)]
pub enum CaptureStep {
    /// Convert and encode the frame, stamped with this timestamp.
    Encode(i64),
    /// Nothing to do in this iteration.
    Skip,
    /// Leave the loop.
    Exit,
}

/// The step that follows a capture outcome when the clock gives `pts`. Only a
/// captured frame takes the timestamp.
pub open spec fn step_of(outcome: CaptureOutcome, pts: i64) -> CaptureStep {
    match outcome {
        CaptureOutcome::Frame => CaptureStep::Encode(pts),
        CaptureOutcome::NotReady => CaptureStep::Skip,
        CaptureOutcome::Failed => CaptureStep::Exit,
    }
}

/// Decides what follows a capture outcome. The clock is read for a captured
/// frame only, and the frame is stamped with that reading; a device that is
/// not ready costs the iteration and nothing else.
pub fn capture_step(outcome: CaptureOutcome, time: &SlickscreenTime) -> (step: CaptureStep)
    ensures
        exists|micros: u128| step == step_of(outcome, pts_of_micros(micros)),
        step matches CaptureStep::Encode(pts) ==> 0 <= pts,
{
    match outcome {
        CaptureOutcome::Frame => {
            let pts = time.pts_now();
            CaptureStep::Encode(pts)
        },
        CaptureOutcome::NotReady => {
            assert(CaptureStep::Skip == step_of(outcome, pts_of_micros(0)));
            CaptureStep::Skip
        },
        CaptureOutcome::Failed => {
            assert(CaptureStep::Exit == step_of(outcome, pts_of_micros(0)));
            CaptureStep::Exit
        },
    }
}

/// What the video actor does after looking into its control queue: it leaves
/// on a quit signal or a closed queue, and goes on when nothing was waiting.
pub fn control_verdict(polled: Polled<VideoRecorderMessage>) -> (control: LoopControl)
    ensures
        control == (if polled is Empty {
            LoopControl::Continue
        } else {
            LoopControl::Exit
        }),
{
    match polled {
        Polled::Message(VideoRecorderMessage::Quit) => LoopControl::Exit,
        Polled::Closed => LoopControl::Exit,
        Polled::Empty => LoopControl::Continue,
    }
}

/// Looks into the control queue without waiting and decides whether the
/// video actor goes on.
pub fn poll_control(receiver: &Receiver<VideoRecorderMessage>) -> (control: LoopControl) {
    control_verdict(receive_now(receiver))
}

/// The time at which the iteration that started at `start` should be followed
/// by the next, both in microseconds on one clock.
pub fn next_frame_deadline(start: u64) -> (deadline: u64)
    ensures
        deadline == if start + FRAME_INTERVAL_MICROS <= u64::MAX {
            start + FRAME_INTERVAL_MICROS
        } else {
            u64::MAX as int
        },
{
    start.saturating_add(FRAME_INTERVAL_MICROS)
}

/// The time left to idle at `now` before `deadline`: none once the deadline
/// has passed.
pub fn idle_micros(deadline: u64, now: u64) -> (idle: u64)
    ensures
        idle == if now < deadline {
            deadline - now
        } else {
            0
        },
{
    if now < deadline {
        deadline - now
    } else {
        0
    }
}

/// The byte at column `col` of row `row` in a buffer whose rows start
/// `stride` bytes apart.
pub open spec fn byte_at(buf: Seq<u8>, stride: int, row: int, col: int) -> u8 {
    buf[row * stride + col]
}

/// The number of whole rows in a buffer of `len` bytes.
pub open spec fn whole_rows(len: int, stride: int) -> int {
    len / stride
}

/// The rows that a copy between two buffers covers: those that both hold.
pub open spec fn shared_rows(dst_len: int, dst_stride: int, src_len: int, src_stride: int) -> int {
    if whole_rows(dst_len, dst_stride) <= whole_rows(src_len, src_stride) {
        whole_rows(dst_len, dst_stride)
    } else {
        whole_rows(src_len, src_stride)
    }
}

/// Whether byte `i` of the destination lies in the leading `cols` bytes of a
/// row below `rows`.
pub open spec fn in_region(i: int, stride: int, rows: int, cols: int) -> bool {
    i / stride < rows && i % stride < cols
}

/// What byte `i` of the destination holds after a row-by-row copy: the source
/// byte of the same row and column inside the copied region, the old byte
/// elsewhere.
pub open spec fn row_copied_byte(
    dst: Seq<u8>,
    dst_stride: int,
    src: Seq<u8>,
    src_stride: int,
    width: int,
    i: int,
) -> u8 {
    if in_region(i, dst_stride, whole_rows(src.len() as int, src_stride), width) {
        byte_at(src, src_stride, i / dst_stride, i % dst_stride)
    } else {
        dst[i]
    }
}

/// The destination after a stride-aware copy. With equal strides the source
/// is taken over as it is; otherwise the leading `width` bytes of every shared
/// row are copied and all other bytes are kept.
pub open spec fn chunked_copy_spec(
    dst: Seq<u8>,
    dst_stride: int,
    src: Seq<u8>,
    src_stride: int,
    width: int,
) -> Seq<u8> {
    if dst_stride == src_stride {
        src
    } else {
        Seq::new(dst.len(), |i: int| row_copied_byte(dst, dst_stride, src, src_stride, width, i))
    }
}

/// The buffers that a stride-aware copy accepts: of equal length where the
/// strides agree; otherwise whole rows on both sides, each at least `width`
/// bytes long.
pub open spec fn chunked_copy_accepts(
    dst_len: int,
    dst_stride: int,
    src_len: int,
    src_stride: int,
    width: int,
) -> bool {
    if dst_stride == src_stride {
        dst_len == src_len
    } else {
        &&& 0 < dst_stride
        &&& 0 < src_stride
        &&& width <= dst_stride
        &&& width <= src_stride
        &&& dst_len % dst_stride == 0
        &&& src_len % src_stride == 0
    }
}

/// Every shared row of the destination starts with the leading `width` bytes
/// of the same row of the source.
pub open spec fn rows_match(
    dst: Seq<u8>,
    dst_stride: int,
    src: Seq<u8>,
    src_stride: int,
    width: int,
) -> bool {
    forall|row: int, col: int|
        0 <= row < shared_rows(dst.len() as int, dst_stride, src.len() as int, src_stride) && 0
            <= col < width ==> #[trigger] byte_at(dst, dst_stride, row, col) == byte_at(
            src,
            src_stride,
            row,
            col,
        )
}

/// Row `row` lies wholly inside a buffer that has more than `row` whole rows.
proof fn lemma_row_in_bounds(len: int, stride: int, row: int)
    requires
        0 < stride,
        0 <= len,
        0 <= row < len / stride,
    ensures
        0 <= row * stride,
        row * stride + stride <= len,
{
    lemma_remainder_lower(len, stride);
    assert((row + 1) * stride <= (len / stride) * stride) by (nonlinear_arith)
        requires
            row + 1 <= len / stride,
            0 < stride,
    ;
    assert((row + 1) * stride == row * stride + stride) by (nonlinear_arith);
    assert(0 <= row * stride) by (nonlinear_arith)
        requires
            0 <= row,
            0 < stride,
    ;
}

/// The row and column of the byte at `row * stride + col`.
proof fn lemma_row_col(stride: int, row: int, col: int)
    requires
        0 < stride,
        0 <= col < stride,
    ensures
        (row * stride + col) / stride == row,
        (row * stride + col) % stride == col,
{
    lemma_fundamental_div_mod_converse_div(row * stride + col, stride, row, col);
    lemma_fundamental_div_mod_converse_mod(row * stride + col, stride, row, col);
}

/// A byte's index is its row times the stride plus its column.
proof fn lemma_index_of_row_col(i: int, stride: int)
    requires
        0 < stride,
    ensures
        i == (i / stride) * stride + i % stride,
{
    lemma_fundamental_div_mod(i, stride);
    assert(stride * (i / stride) == (i / stride) * stride) by (nonlinear_arith);
}

/// Copies `src` into `dst`, where the rows of the two buffers may be padded
/// to different strides. With equal strides the whole buffer is copied;
/// otherwise the leading `width` bytes of each row, and the padding of `dst`
/// stays as it was.
pub fn chunked_copy(
    dst: &mut [u8],
    dst_stride: usize,
    src: &[u8],
    src_stride: usize,
    width: usize,
)
    requires
        chunked_copy_accepts(
            old(dst)@.len() as int,
            dst_stride as int,
            src@.len() as int,
            src_stride as int,
            width as int,
        ),
    ensures
        final(dst)@ == chunked_copy_spec(
            old(dst)@,
            dst_stride as int,
            src@,
            src_stride as int,
            width as int,
        ),
        0 < dst_stride && 0 < src_stride && width <= dst_stride && width <= src_stride
            ==> rows_match(final(dst)@, dst_stride as int, src@, src_stride as int, width as int),
{
    let ghost before = dst@;
    let ghost ds = dst_stride as int;
    let ghost ss = src_stride as int;
    let ghost w = width as int;
    if dst_stride == src_stride {
        let n: usize = src.len();
        let mut i: usize = 0;
        while i < n
            invariant
                n == src@.len(),
                dst@.len() == n,
                i <= n,
                forall|k: int| 0 <= k < i ==> dst@[k] == src@[k],
            decreases n - i,
        {
            dst[i] = src[i];
            i += 1;
        }
        assert(dst@ =~= src@);
    } else {
        let dst_rows: usize = dst.len() / dst_stride;
        let src_rows: usize = src.len() / src_stride;
        let rows: usize = if dst_rows <= src_rows {
            dst_rows
        } else {
            src_rows
        };
        let mut row: usize = 0;
        while row < rows
            invariant
                0 < ds == dst_stride,
                0 < ss == src_stride,
                w == width,
                w <= ds,
                w <= ss,
                dst@.len() == before.len() <= usize::MAX,
                src@.len() <= usize::MAX,
                dst_rows == before.len() as int / ds,
                src_rows == src@.len() as int / ss,
                rows <= dst_rows,
                rows <= src_rows,
                row <= rows,
                forall|i: int|
                    0 <= i < dst@.len() ==> #[trigger] dst@[i] == (if in_region(
                        i,
                        ds,
                        row as int,
                        w,
                    ) {
                        byte_at(src@, ss, i / ds, i % ds)
                    } else {
                        before[i]
                    }),
            decreases rows - row,
        {
            proof {
                lemma_row_in_bounds(before.len() as int, ds, row as int);
                lemma_row_in_bounds(src@.len() as int, ss, row as int);
            }
            let dst_start: usize = row * dst_stride;
            let src_start: usize = row * src_stride;
            let mut col: usize = 0;
            while col < width
                invariant
                    0 < ds == dst_stride,
                    0 < ss == src_stride,
                    w == width,
                    w <= ds,
                    w <= ss,
                    dst@.len() == before.len() <= usize::MAX,
                    src@.len() <= usize::MAX,
                    col <= width,
                    dst_start == row * ds,
                    src_start == row * ss,
                    dst_start + ds <= dst@.len(),
                    src_start + ss <= src@.len(),
                    forall|i: int|
                        0 <= i < dst@.len() ==> #[trigger] dst@[i] == (if in_region(
                            i,
                            ds,
                            row as int,
                            w,
                        ) || (i / ds == row && i % ds < col) {
                            byte_at(src@, ss, i / ds, i % ds)
                        } else {
                            before[i]
                        }),
                decreases width - col,
            {
                let ghost prior = dst@;
                dst[dst_start + col] = src[src_start + col];
                proof {
                    lemma_row_col(ds, row as int, col as int);
                    assert forall|i: int| 0 <= i < dst@.len() implies #[trigger] dst@[i] == (
                    if in_region(i, ds, row as int, w) || (i / ds == row && i % ds < col + 1) {
                        byte_at(src@, ss, i / ds, i % ds)
                    } else {
                        before[i]
                    }) by {
                        if i != dst_start + col {
                            assert(dst@[i] == prior[i]);
                            lemma_index_of_row_col(i, ds);
                        }
                    }
                }
                col += 1;
            }
            proof {
                assert forall|i: int| 0 <= i < dst@.len() implies #[trigger] dst@[i] == (
                if in_region(i, ds, row + 1, w) {
                    byte_at(src@, ss, i / ds, i % ds)
                } else {
                    before[i]
                }) by {
                    assert(in_region(i, ds, row + 1, w) <==> (in_region(i, ds, row as int, w) || (i
                        / ds == row && i % ds < width)));
                }
            }
            row += 1;
        }
        proof {
            assert forall|i: int| 0 <= i < dst@.len() implies #[trigger] dst@[i]
                == row_copied_byte(before, ds, src@, ss, w, i) by {
                lemma_index_of_row_col(i, ds);
                vstd::arithmetic::div_mod::lemma_div_is_ordered(i, before.len() as int - 1, ds);
                if i / ds >= dst_rows {
                    assert((i / ds) * ds >= dst_rows * ds) by (nonlinear_arith)
                        requires
                            i / ds >= dst_rows,
                            0 < ds,
                    ;
                    lemma_fundamental_div_mod(before.len() as int, ds);
                    assert(ds * (before.len() as int / ds) == dst_rows * ds) by (nonlinear_arith)
                        requires
                            dst_rows == before.len() as int / ds,
                    ;
                }
            }
            assert(dst@ =~= chunked_copy_spec(before, ds, src@, ss, w));
        }
    }
    proof {
        if 0 < dst_stride && 0 < src_stride && width <= dst_stride && width <= src_stride {
            lemma_copy_rows_match(before, ds, src@, ss, w);
        }
    }
}

/// After a stride-aware copy, every shared row of the destination starts
/// with the leading `width` bytes of that row of the source.
pub proof fn lemma_copy_rows_match(
    dst: Seq<u8>,
    dst_stride: int,
    src: Seq<u8>,
    src_stride: int,
    width: int,
)
    requires
        chunked_copy_accepts(dst.len() as int, dst_stride, src.len() as int, src_stride, width),
        0 < dst_stride,
        0 < src_stride,
        width <= dst_stride,
        width <= src_stride,
    ensures
        rows_match(
            chunked_copy_spec(dst, dst_stride, src, src_stride, width),
            dst_stride,
            src,
            src_stride,
            width,
        ),
{
    let after = chunked_copy_spec(dst, dst_stride, src, src_stride, width);
    assert(after.len() == dst.len());
    assert forall|row: int, col: int|
        0 <= row < shared_rows(after.len() as int, dst_stride, src.len() as int, src_stride) && 0
            <= col < width implies #[trigger] byte_at(after, dst_stride, row, col) == byte_at(
        src,
        src_stride,
        row,
        col,
    ) by {
        if dst_stride != src_stride {
            lemma_row_in_bounds(dst.len() as int, dst_stride, row);
            lemma_row_col(dst_stride, row, col);
        }
    }
}

/// Where both buffers hold the same number of rows, each row of the
/// destination starts after the copy with the leading `width` bytes of that
/// row of the source.
pub proof fn lemma_copy_fills_every_row(
    dst: Seq<u8>,
    dst_stride: int,
    src: Seq<u8>,
    src_stride: int,
    width: int,
    rows: int,
)
    requires
        chunked_copy_accepts(dst.len() as int, dst_stride, src.len() as int, src_stride, width),
        width <= dst_stride,
        width <= src_stride,
        0 <= rows,
        dst.len() == rows * dst_stride,
        src.len() == rows * src_stride,
    ensures
        forall|row: int, col: int|
            0 <= row < rows && 0 <= col < width ==> #[trigger] byte_at(
                chunked_copy_spec(dst, dst_stride, src, src_stride, width),
                dst_stride,
                row,
                col,
            ) == byte_at(src, src_stride, row, col),
{
    let after = chunked_copy_spec(dst, dst_stride, src, src_stride, width);
    assert forall|row: int, col: int| 0 <= row < rows && 0 <= col < width implies #[trigger] byte_at(
        after,
        dst_stride,
        row,
        col,
    ) == byte_at(src, src_stride, row, col) by {
        if dst_stride != src_stride {
            vstd::arithmetic::div_mod::lemma_div_by_multiple(rows, dst_stride);
            vstd::arithmetic::div_mod::lemma_div_by_multiple(rows, src_stride);
            assert(shared_rows(after.len() as int, dst_stride, src.len() as int, src_stride)
                == rows);
            lemma_copy_rows_match(dst, dst_stride, src, src_stride, width);
        }
    }
}

/// Whether two buffers of one layout hold the same leading `width` bytes in
/// every whole row, whatever their padding holds.
pub open spec fn same_rows(a: Seq<u8>, b: Seq<u8>, stride: int, width: int) -> bool {
    &&& a.len() == b.len()
    &&& forall|row: int, col: int|
        0 <= row < whole_rows(a.len() as int, stride) && 0 <= col < width ==> #[trigger] byte_at(
            a,
            stride,
            row,
            col,
        ) == byte_at(b, stride, row, col)
}

/// Where the strides differ, the padding of the source has no part in the
/// result: two sources with the same row contents give the same destination.
pub proof fn lemma_padding_ignored(
    dst: Seq<u8>,
    dst_stride: int,
    src_a: Seq<u8>,
    src_b: Seq<u8>,
    src_stride: int,
    width: int,
)
    requires
        dst_stride != src_stride,
        chunked_copy_accepts(dst.len() as int, dst_stride, src_a.len() as int, src_stride, width),
        same_rows(src_a, src_b, src_stride, width),
    ensures
        chunked_copy_spec(dst, dst_stride, src_a, src_stride, width) == chunked_copy_spec(
            dst,
            dst_stride,
            src_b,
            src_stride,
            width,
        ),
{
    let with_a = chunked_copy_spec(dst, dst_stride, src_a, src_stride, width);
    let with_b = chunked_copy_spec(dst, dst_stride, src_b, src_stride, width);
    assert forall|i: int| 0 <= i < dst.len() implies with_a[i] == with_b[i] by {
        if in_region(i, dst_stride, whole_rows(src_a.len() as int, src_stride), width) {
            vstd::arithmetic::div_mod::lemma_div_pos_is_pos(i, dst_stride);
            vstd::arithmetic::div_mod::lemma_mod_pos_bound(i, dst_stride);
            assert(byte_at(src_a, src_stride, i / dst_stride, i % dst_stride) == byte_at(
                src_b,
                src_stride,
                i / dst_stride,
                i % dst_stride,
            ));
        }
    }
    assert(with_a =~= with_b);
}

/// Whatever the strides, the copied region does not depend on the padding of
/// the source: two sources with the same row contents give destinations
/// that agree in the leading `width` bytes of every shared row.
pub proof fn lemma_copied_region_ignores_padding(
    dst: Seq<u8>,
    dst_stride: int,
    src_a: Seq<u8>,
    src_b: Seq<u8>,
    src_stride: int,
    width: int,
)
    requires
        chunked_copy_accepts(dst.len() as int, dst_stride, src_a.len() as int, src_stride, width),
        0 < dst_stride,
        0 < src_stride,
        width <= dst_stride,
        width <= src_stride,
        same_rows(src_a, src_b, src_stride, width),
    ensures
        forall|row: int, col: int|
            0 <= row < shared_rows(
                dst.len() as int,
                dst_stride,
                src_a.len() as int,
                src_stride,
            ) && 0 <= col < width ==> #[trigger] byte_at(
                chunked_copy_spec(dst, dst_stride, src_a, src_stride, width),
                dst_stride,
                row,
                col,
            ) == byte_at(
                chunked_copy_spec(dst, dst_stride, src_b, src_stride, width),
                dst_stride,
                row,
                col,
            ),
{
    let with_a = chunked_copy_spec(dst, dst_stride, src_a, src_stride, width);
    let with_b = chunked_copy_spec(dst, dst_stride, src_b, src_stride, width);
    lemma_copy_rows_match(dst, dst_stride, src_a, src_stride, width);
    lemma_copy_rows_match(dst, dst_stride, src_b, src_stride, width);
    assert(with_a.len() == dst.len() && with_b.len() == dst.len());
    assert forall|row: int, col: int|
        0 <= row < shared_rows(dst.len() as int, dst_stride, src_a.len() as int, src_stride) && 0
            <= col < width implies #[trigger] byte_at(with_a, dst_stride, row, col) == byte_at(
        with_b,
        dst_stride,
        row,
        col,
    ) by {
        assert(byte_at(with_a, dst_stride, row, col) == byte_at(src_a, src_stride, row, col));
        assert(byte_at(with_b, dst_stride, row, col) == byte_at(src_b, src_stride, row, col));
        assert(byte_at(src_a, src_stride, row, col) == byte_at(src_b, src_stride, row, col));
    }
}

/// Tells whether a stride-aware copy accepts buffers of these lengths and
/// strides.
pub fn chunked_copy_fits(
    dst_len: usize,
    dst_stride: usize,
    src_len: usize,
    src_stride: usize,
    width: usize,
) -> (fits: bool)
    ensures
        fits == chunked_copy_accepts(
            dst_len as int,
            dst_stride as int,
            src_len as int,
            src_stride as int,
            width as int,
        ),
{
    if dst_stride == src_stride {
        dst_len == src_len
    } else {
        dst_stride > 0 && src_stride > 0 && width <= dst_stride && width <= src_stride && dst_len
            % dst_stride == 0 && src_len % src_stride == 0
    }
}

/// Whether a captured screen of `width` by `height` pixels in a buffer of
/// `screen_len` bytes can be copied into a frame buffer: the screen has rows,
/// the length of a row of pixels can be computed, and the copy accepts the
/// two layouts, the screen's stride being its length divided by its height.
pub open spec fn capture_fits(
    dst_len: int,
    dst_stride: int,
    screen_len: int,
    width: int,
    height: int,
) -> bool {
    &&& 0 < height
    &&& PIXEL_SIZE * width <= usize::MAX
    &&& chunked_copy_accepts(dst_len, dst_stride, screen_len, screen_len / height, PIXEL_SIZE * width)
}

/// Copies a captured screen into the frame buffer `dst`, stripping the row
/// padding of the capture device. Where the layouts do not fit, nothing is
/// copied and the result says so.
pub fn copy_capture(
    dst: &mut [u8],
    dst_stride: usize,
    screen: &[u8],
    display_width: usize,
    display_height: usize,
) -> (copied: bool)
    ensures
        copied == capture_fits(
            old(dst)@.len() as int,
            dst_stride as int,
            screen@.len() as int,
            display_width as int,
            display_height as int,
        ),
        copied ==> final(dst)@ == chunked_copy_spec(
            old(dst)@,
            dst_stride as int,
            screen@,
            screen@.len() as int / display_height as int,
            PIXEL_SIZE * display_width,
        ),
        !copied ==> final(dst)@ == old(dst)@,
{
    if display_height == 0 || display_width > usize::MAX / PIXEL_SIZE {
        return false;
    }
    let screen_stride: usize = screen.len() / display_height;
    let row_length: usize = PIXEL_SIZE * display_width;
    if !chunked_copy_fits(dst.len(), dst_stride, screen.len(), screen_stride, row_length) {
        return false;
    }
    chunked_copy(dst, dst_stride, screen, screen_stride, row_length);
    true
}

/// The timestamps of the frames that a run of capture steps hands to the
/// encoder, in order.
pub open spec fn emitted_pts(steps: Seq<CaptureStep>) -> Seq<i64>
    decreases steps.len(),
{
    if steps.len() == 0 {
        Seq::empty()
    } else {
        let before = emitted_pts(steps.drop_last());
        match steps.last() {
            CaptureStep::Encode(pts) => before.push(pts),
            _ => before,
        }
    }
}

/// The steps of a run in which iteration `i` ends in `outcomes[i]` and the
/// clock, if it is read, gives `readings[i]`.
pub open spec fn steps_of(outcomes: Seq<CaptureOutcome>, readings: Seq<u128>) -> Seq<CaptureStep> {
    Seq::new(outcomes.len(), |i: int| step_of(outcomes[i], pts_of_micros(readings[i])))
}

/// Which iterations of a run captured a frame.
pub open spec fn captured(outcomes: Seq<CaptureOutcome>) -> Seq<bool> {
    Seq::new(outcomes.len(), |i: int| outcomes[i] == CaptureOutcome::Frame)
}

/// The frames of a run are those of its captured iterations, each stamped
/// with the clock reading of its iteration.
pub proof fn lemma_emitted_are_captured(outcomes: Seq<CaptureOutcome>, readings: Seq<u128>)
    requires
        outcomes.len() == readings.len(),
    ensures
        emitted_pts(steps_of(outcomes, readings)) == stamps(readings, captured(outcomes)),
    decreases outcomes.len(),
{
    if outcomes.len() > 0 {
        lemma_emitted_are_captured(outcomes.drop_last(), readings.drop_last());
        assert(steps_of(outcomes, readings).drop_last() =~= steps_of(
            outcomes.drop_last(),
            readings.drop_last(),
        ));
        assert(captured(outcomes).drop_last() =~= captured(outcomes.drop_last()));
    }
}

/// On a steady clock the timestamps of the emitted frames never go back, and
/// there is one frame for each captured iteration: none for a device that
/// was not ready or failed.
pub proof fn lemma_video_timestamps_ordered(outcomes: Seq<CaptureOutcome>, readings: Seq<u128>)
    requires
        outcomes.len() == readings.len(),
        steady_clock(readings),
    ensures
        non_decreasing(emitted_pts(steps_of(outcomes, readings))),
        emitted_pts(steps_of(outcomes, readings)).len() == captured(outcomes).filter(
            |c: bool| c,
        ).len(),
{
    lemma_emitted_are_captured(outcomes, readings);
    lemma_stamps_ordered(readings, captured(outcomes));
}

} // verus!
