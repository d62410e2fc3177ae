//! Whole print jobs: the commands of a raster print in the order that the
//! device expects them.
//!
//! A job resets and initialises the device, switches it to raster mode,
//! describes the print, transfers the raster lines, starts the print and
//! flushes the session. The session itself does not watch over that order;
//! the functions here keep it.
use std::ops::Deref;
use vstd::prelude::*;
use crate::Result;
use crate::commands::{
    compression_mode_frame, init_frame, invalidate_frame, margin_frame, page_no_frame,
    print_and_feed_frame, print_info_frame, raster_line_frame, switch_mode_frame,
    various_mode_frame, Commands, CompressionMode, Mode, PrintInfo, VariousMode,
};
use crate::interface::PTouchInterface;
use crate::printer::PTouchPrinter;
use crate::raster::RasterBuffer;
use crate::status::MediaKind;

verus! {

/// The bytes that open a job: reset, initialise, raster mode, then the
/// print information, the various-mode flags, the page number, the margin,
/// and the choice of uncompressed lines.
pub open spec fn job_header(info: PrintInfo, mode: VariousMode, page_no: u8, margin: u16) -> Seq<
    u8,
> {
    invalidate_frame() + init_frame() + switch_mode_frame(Mode::Raster) + print_info_frame(info)
        + various_mode_frame(mode) + page_no_frame(page_no) + margin_frame(margin)
        + compression_mode_frame(CompressionMode::NoCompression)
}

/// One raster-line command for each line, in the order of the lines.
pub open spec fn raster_frames(lines: Seq<Seq<u8>>) -> Seq<u8>
    decreases lines.len(),
{
    if lines.len() == 0 {
        Seq::empty()
    } else {
        raster_frames(lines.drop_last()) + raster_line_frame(lines.last())
    }
}

/// The bytes of a whole job that prints `lines` and feeds.
pub open spec fn job_bytes(
    info: PrintInfo,
    mode: VariousMode,
    page_no: u8,
    margin: u16,
    lines: Seq<Seq<u8>>,
) -> Seq<u8> {
    job_header(info, mode, page_no, margin) + raster_frames(lines) + print_and_feed_frame()
}

/// Whether `now` is `before` with a part of `data` behind it that stops
/// short of the end of `data`.
pub open spec fn cut_short(now: Seq<u8>, before: Seq<u8>, data: Seq<u8>) -> bool {
    exists|n: int| 0 <= n < data.len() && now == before + #[trigger] data.take(n)
}

/// How a job of the bytes `data` leaves the session `before`.
///
/// Where the job succeeds, the transport has been handed all that waited
/// in the buffer and then `data`, and nothing waits any more.
///
/// A gathering session can fail only in the flush that ends the job; all of
/// `data` then waits in the buffer behind what waited before, and the wire
/// is as it was. An immediate session fails with the first write that its
/// transport refuses; the wire then holds the part of `data` that went
/// before that write, and nothing after it.
pub open spec fn job_done<I: PTouchInterface>(
    before: PTouchPrinter<I>,
    after: PTouchPrinter<I>,
    data: Seq<u8>,
    r: Result<()>,
) -> bool {
    &&& after.is_buffered() == before.is_buffered()
    &&& r is Ok ==> {
        &&& after.wire() == before.stream() + data
        &&& after.pending() == Seq::<u8>::empty()
    }
    &&& r is Err && before.is_buffered() ==> {
        &&& after.wire() == before.wire()
        &&& after.pending() == before.pending() + data
    }
    &&& r is Err && !before.is_buffered() ==> {
        &&& cut_short(after.wire(), before.wire(), data)
        &&& after.pending() == Seq::<u8>::empty()
    }
}

/// The frames of the first `n + 1` lines are those of the first `n`, then
/// the frame of line `n`.
proof fn lemma_raster_frames_step(lines: Seq<Seq<u8>>, n: int)
    requires
        0 <= n < lines.len(),
    ensures
        raster_frames(lines.take(n + 1)) == raster_frames(lines.take(n)) + raster_line_frame(
            lines[n],
        ),
{
    assert(lines.take(n + 1).drop_last() =~= lines.take(n));
}

/// The frames of the first `n` lines are the beginning of the frames of all
/// the lines.
proof fn lemma_raster_frames_prefix(lines: Seq<Seq<u8>>, n: int)
    requires
        0 <= n <= lines.len(),
    ensures
        raster_frames(lines.take(n)).len() <= raster_frames(lines).len(),
        raster_frames(lines).take(raster_frames(lines.take(n)).len() as int) == raster_frames(
            lines.take(n),
        ),
    decreases lines.len() - n,
{
    if n == lines.len() {
        assert(lines.take(n) =~= lines);
        assert(raster_frames(lines).take(raster_frames(lines).len() as int) =~= raster_frames(
            lines,
        ));
    } else {
        lemma_raster_frames_step(lines, n);
        lemma_raster_frames_prefix(lines, n + 1);
        let shorter = raster_frames(lines.take(n));
        let longer = raster_frames(lines.take(n + 1));
        assert(raster_frames(lines).take(shorter.len() as int) =~= longer.take(
            shorter.len() as int,
        ));
        assert(longer.take(shorter.len() as int) =~= shorter);
    }
}

/// A job that fails while it is opened has failed as a whole.
proof fn lemma_cut_short_in_header(now: Seq<u8>, before: Seq<u8>, header: Seq<u8>, rest: Seq<u8>)
    requires
        cut_short(now, before, header),
    ensures
        cut_short(now, before, header + rest),
{
    let n = choose|n: int| 0 <= n < header.len() && now == before + #[trigger] header.take(n);
    assert((header + rest).take(n) =~= header.take(n));
}

/// Whatever fails while a job is opened, the job has failed as a whole.
proof fn lemma_cut_short_in_header_any(before: Seq<u8>, header: Seq<u8>, rest: Seq<u8>)
    ensures
        forall|now: Seq<u8>| #[trigger]
            cut_short(now, before, header) ==> cut_short(now, before, header + rest),
{
    assert forall|now: Seq<u8>| #[trigger] cut_short(now, before, header) implies cut_short(
        now,
        before,
        header + rest,
    ) by {
        lemma_cut_short_in_header(now, before, header, rest);
    }
}

/// A job that fails at raster line `n` has handed over the opening and the
/// frames of the lines before that one.
proof fn lemma_cut_short_in_lines(
    before: Seq<u8>,
    header: Seq<u8>,
    lines: Seq<Seq<u8>>,
    n: int,
    tail: Seq<u8>,
)
    requires
        0 <= n <= lines.len(),
        tail.len() > 0,
    ensures
        cut_short(
            before + header + raster_frames(lines.take(n)),
            before,
            header + raster_frames(lines) + tail,
        ),
{
    lemma_raster_frames_prefix(lines, n);
    let part = raster_frames(lines.take(n));
    let data = header + raster_frames(lines) + tail;
    let at = (header.len() + part.len()) as int;
    assert(data.take(at) =~= header + part);
    assert(before + header + part =~= before + data.take(at));
}

/// Opens a job.
fn begin_job<I: PTouchInterface>(
    printer: &mut PTouchPrinter<I>,
    info: &PrintInfo,
    mode: VariousMode,
    page_no: u8,
    margin: u16,
) -> (r: Result<()>)
    ensures
        final(printer).is_buffered() == old(printer).is_buffered(),
        old(printer).is_buffered() ==> r is Ok,
        r is Ok ==> PTouchPrinter::written(
            *old(printer),
            *final(printer),
            job_header(*info, mode, page_no, margin),
            r,
        ),
        r is Err ==> final(printer).pending() == Seq::<u8>::empty() && cut_short(
            final(printer).wire(),
            old(printer).wire(),
            job_header(*info, mode, page_no, margin),
        ),
{
    let ghost start = printer.wire();
    let ghost direct = !printer.is_buffered();
    let ghost header = job_header(*info, mode, page_no, margin);
    assert(direct ==> printer.wire() =~= start + header.take(0));
    printer.invalidate()?;
    assert(direct ==> printer.wire() =~= start + header.take(400));
    printer.init()?;
    assert(direct ==> printer.wire() =~= start + header.take(402));
    printer.switch_mode(Mode::Raster)?;
    assert(direct ==> printer.wire() =~= start + header.take(406));
    printer.set_print_info(info)?;
    assert(direct ==> printer.wire() =~= start + header.take(419));
    printer.set_various_mode(mode)?;
    assert(direct ==> printer.wire() =~= start + header.take(423));
    printer.set_page_no(page_no)?;
    assert(direct ==> printer.wire() =~= start + header.take(427));
    printer.set_margin(margin)?;
    assert(direct ==> printer.wire() =~= start + header.take(432));
    printer.set_compression_mode(CompressionMode::NoCompression)?;
    Ok(())
}

/// Starts the print, feeds, and flushes the session.
fn end_job<I: PTouchInterface>(printer: &mut PTouchPrinter<I>) -> (r: Result<()>)
    ensures
        final(printer).is_buffered() == old(printer).is_buffered(),
        r is Ok ==> final(printer).wire() == old(printer).stream() + print_and_feed_frame()
            && final(printer).pending() == Seq::<u8>::empty(),
        r is Err ==> final(printer).wire() == old(printer).wire(),
        r is Err && old(printer).is_buffered() ==> final(printer).pending() == old(
            printer,
        ).pending() + print_and_feed_frame(),
        r is Err && !old(printer).is_buffered() ==> final(printer).pending() == Seq::<u8>::empty(),
{
    printer.print_and_feed()?;
    printer.flush()
}

/// The opening of a job, the transfer of its lines and its end make the
/// job.
proof fn lemma_job_composes<I: PTouchInterface>(
    start: PTouchPrinter<I>,
    opened: PTouchPrinter<I>,
    fed: PTouchPrinter<I>,
    done: PTouchPrinter<I>,
    header: Seq<u8>,
    lines: Seq<Seq<u8>>,
    r: Result<()>,
)
    requires
        PTouchPrinter::written(start, opened, header, Ok(())),
        PTouchPrinter::written(opened, fed, raster_frames(lines), Ok(())),
        done.is_buffered() == fed.is_buffered(),
        r is Ok ==> done.wire() == fed.stream() + print_and_feed_frame() && done.pending()
            == Seq::<u8>::empty(),
        r is Err ==> done.wire() == fed.wire(),
        r is Err && fed.is_buffered() ==> done.pending() == fed.pending() + print_and_feed_frame(),
        r is Err && !fed.is_buffered() ==> done.pending() == Seq::<u8>::empty(),
    ensures
        job_done(start, done, header + raster_frames(lines) + print_and_feed_frame(), r),
{
    let frames = raster_frames(lines);
    let tail = print_and_feed_frame();
    assert(start.stream() + header + frames + tail =~= start.stream() + (header + frames + tail));
    assert(start.pending() + header + frames + tail =~= start.pending() + (header + frames
        + tail));
    if r is Err && !start.is_buffered() {
        assert(lines.take(lines.len() as int) =~= lines);
        lemma_cut_short_in_lines(start.wire(), header, lines, lines.len() as int, tail);
    }
}

/// Prints the raster image `raster_data`: one job, one transfer for each
/// line of the image in its order, then print and feed.
pub fn print_raster<I: PTouchInterface>(
    printer: &mut PTouchPrinter<I>,
    info: &PrintInfo,
    mode: VariousMode,
    page_no: u8,
    margin: u16,
    raster_data: &RasterBuffer,
) -> (r: Result<()>)
    ensures
        job_done(
            *old(printer),
            *final(printer),
            job_bytes(*info, mode, page_no, margin, raster_data@),
            r,
        ),
{
    let ghost start = *printer;
    let ghost header = job_header(*info, mode, page_no, margin);
    let ghost tail = print_and_feed_frame();
    proof {
        lemma_cut_short_in_header_any(start.wire(), header, raster_frames(raster_data@) + tail);
        assert(header + (raster_frames(raster_data@) + tail) =~= header + raster_frames(
            raster_data@,
        ) + tail);
    }
    begin_job(printer, info, mode, page_no, margin)?;
    let ghost opened = *printer;
    let lines: &Vec<[u8; 90]> = raster_data.deref();
    let mut y: usize = 0;
    while y < lines.len()
        invariant
            y <= lines@.len(),
            lines@.len() == raster_data@.len(),
            forall|i: int| 0 <= i < lines@.len() ==> (#[trigger] lines@[i])@ == raster_data@[i],
            start == *old(printer),
            header == job_header(*info, mode, page_no, margin),
            tail == print_and_feed_frame(),
            PTouchPrinter::written(start, opened, header, Ok(())),
            PTouchPrinter::written(
                opened,
                *printer,
                raster_frames(raster_data@.take(y as int)),
                Ok(()),
            ),
        decreases lines@.len() - y,
    {
        proof {
            lemma_raster_frames_step(raster_data@, y as int);
            lemma_cut_short_in_lines(start.wire(), header, raster_data@, y as int, tail);
        }
        let ghost so_far = raster_frames(raster_data@.take(y as int));
        let ghost next = raster_line_frame(raster_data@[y as int]);
        printer.transfer_raster_line(&lines[y])?;
        assert(opened.stream() + so_far + next =~= opened.stream() + (so_far + next));
        assert(opened.pending() + so_far + next =~= opened.pending() + (so_far + next));
        assert(opened.wire() + so_far + next =~= opened.wire() + (so_far + next));
        y += 1;
    }
    assert(raster_data@.take(y as int) =~= raster_data@);
    let ghost fed = *printer;
    let r = end_job(printer);
    proof {
        lemma_job_composes(start, opened, fed, *printer, header, raster_data@, r);
    }
    r
}

/// Line `i` of the test pattern: 80 bytes, `0xf0` in the first four lines
/// of every eight and `0x0f` in the other four.
pub open spec fn test_line(i: int) -> Seq<u8> {
    if i % 8 < 4 {
        Seq::new(80, |k: int| 0xf0u8)
    } else {
        Seq::new(80, |k: int| 0x0fu8)
    }
}

/// The test pattern: 120 lines, which print as stripes four dots wide that
/// change sides every four lines.
pub open spec fn test_pattern() -> Seq<Seq<u8>> {
    Seq::new(120, |i: int| test_line(i))
}

/// The print information of the test pattern: continuous tape, 50 mm wide,
/// no length, one raster line announced, recovery on.
pub open spec fn test_print_info() -> PrintInfo {
    PrintInfo {
        kind: Some(MediaKind::ContinuousLengthTape),
        width: Some(50),
        length: None,
        raster_no: 1,
        recover: true,
    }
}

/// The bytes of the job that prints the test pattern: automatic cut, page
/// 1, no margin.
pub open spec fn test_job_bytes() -> Seq<u8> {
    job_bytes(
        test_print_info(),
        VariousMode::from_bits_truncate(VariousMode::AUTO_CUT),
        1,
        0,
        test_pattern(),
    )
}

/// Prints the test pattern on continuous 50 mm tape, cut after the print.
pub fn print_test_pattern<I: PTouchInterface>(printer: &mut PTouchPrinter<I>) -> (r: Result<()>)
    ensures
        job_done(*old(printer), *final(printer), test_job_bytes(), r),
{
    let ghost start = *printer;
    let left = [0xf0u8; 80];
    let right = [0x0fu8; 80];
    let info = PrintInfo {
        kind: Some(MediaKind::ContinuousLengthTape),
        width: Some(50),
        length: None,
        raster_no: 1,
        recover: true,
    };
    let mode = VariousMode::from_bits_truncate(VariousMode::AUTO_CUT);
    let ghost header = job_header(info, mode, 1, 0);
    let ghost tail = print_and_feed_frame();
    proof {
        lemma_cut_short_in_header_any(start.wire(), header, raster_frames(test_pattern()) + tail);
        assert(header + (raster_frames(test_pattern()) + tail) =~= header + raster_frames(
            test_pattern(),
        ) + tail);
    }
    begin_job(printer, &info, mode, 1, 0)?;
    let ghost opened = *printer;
    let mut i: usize = 0;
    while i < 120
        invariant
            i <= 120,
            left@ =~= Seq::new(80, |k: int| 0xf0u8),
            right@ =~= Seq::new(80, |k: int| 0x0fu8),
            start == *old(printer),
            header == job_header(test_print_info(), VariousMode::from_bits_truncate(
                VariousMode::AUTO_CUT,
            ), 1, 0),
            tail == print_and_feed_frame(),
            PTouchPrinter::written(start, opened, header, Ok(())),
            PTouchPrinter::written(
                opened,
                *printer,
                raster_frames(test_pattern().take(i as int)),
                Ok(()),
            ),
        decreases 120 - i,
    {
        proof {
            lemma_raster_frames_step(test_pattern(), i as int);
            lemma_cut_short_in_lines(start.wire(), header, test_pattern(), i as int, tail);
        }
        let ghost so_far = raster_frames(test_pattern().take(i as int));
        let ghost next = raster_line_frame(test_pattern()[i as int]);
        if i % 8 < 4 {
            printer.transfer_raster_line(&left)?;
        } else {
            printer.transfer_raster_line(&right)?;
        }
        assert(opened.stream() + so_far + next =~= opened.stream() + (so_far + next));
        assert(opened.pending() + so_far + next =~= opened.pending() + (so_far + next));
        assert(opened.wire() + so_far + next =~= opened.wire() + (so_far + next));
        i += 1;
    }
    assert(test_pattern().take(i as int) =~= test_pattern());
    let ghost fed = *printer;
    let r = end_job(printer);
    proof {
        lemma_job_composes(start, opened, fed, *printer, header, test_pattern(), r);
    }
    r
}

} // verus!
