//! The bounded history of parsed log lines.
//!
//! Lines enter at the back. When the history is full the oldest line leaves
//! first, so a history that starts empty always holds the most recent lines,
//! never more than `MAX_LOG_LINES` of them. A line without segments is never
//! stored.

use crate::ansi::{
    ansi_parse_blocks, parse_line, segment_views, segments_of, AnsiSegment, SegmentView,
};
use std::collections::VecDeque;
use vstd::prelude::*;

verus! {

/// The most lines that the history holds.
pub const MAX_LOG_LINES: usize = 500;

/// The history after `line` was offered to it: unchanged when the line has no
/// segments; otherwise the line stands at the back, and the oldest line has
/// left if the history was full.
pub open spec fn log_append(log: Seq<Seq<SegmentView>>, line: Seq<SegmentView>) -> Seq<
    Seq<SegmentView>,
> {
    if line.len() == 0 {
        log
    } else if log.len() >= MAX_LOG_LINES {
        log.drop_first().push(line)
    } else {
        log.push(line)
    }
}

/// The history after each of `lines` was offered to it, first to last.
pub open spec fn log_extend(log: Seq<Seq<SegmentView>>, lines: Seq<Seq<SegmentView>>) -> Seq<
    Seq<SegmentView>,
>
    decreases lines.len(),
{
    if lines.len() == 0 {
        log
    } else {
        log_append(log_extend(log, lines.drop_last()), lines.last())
    }
}

/// The last `MAX_LOG_LINES` entries of `lines`, or all of them if there are fewer.
pub open spec fn most_recent(lines: Seq<Seq<SegmentView>>) -> Seq<Seq<SegmentView>> {
    if lines.len() <= MAX_LOG_LINES {
        lines
    } else {
        lines.subrange(lines.len() - MAX_LOG_LINES, lines.len() as int)
    }
}

/// The lines among `lines` that have at least one segment, in order.
pub open spec fn stored(lines: Seq<Seq<SegmentView>>) -> Seq<Seq<SegmentView>> {
    lines.filter(|line: Seq<SegmentView>| line.len() > 0)
}

/// What a history may hold: at most `MAX_LOG_LINES` lines, none without segments.
pub open spec fn log_valid(log: Seq<Seq<SegmentView>>) -> bool {
    &&& log.len() <= MAX_LOG_LINES
    &&& forall|i: int| 0 <= i < log.len() ==> (#[trigger] log[i]).len() > 0
}

/// Offering a line to a valid history leaves a valid history: the size
/// never exceeds the capacity.
pub proof fn append_keeps_valid(log: Seq<Seq<SegmentView>>, line: Seq<SegmentView>)
    requires
        log_valid(log),
    ensures
        log_valid(log_append(log, line)),
{
}

/// Whatever lines are offered, in whatever number, the history never
/// exceeds its capacity and holds exactly the most recent of all the lines
/// that it ever stored.
pub proof fn extend_keeps_most_recent(log: Seq<Seq<SegmentView>>, lines: Seq<Seq<SegmentView>>)
    requires
        log_valid(log),
    ensures
        log_valid(log_extend(log, lines)),
        log_extend(log, lines) == most_recent(log + stored(lines)),
    decreases lines.len(),
{
    reveal(Seq::filter);
    if lines.len() == 0 {
        assert(stored(lines) =~= Seq::empty());
        assert(log + stored(lines) =~= log);
    } else {
        let front = lines.drop_last();
        let line = lines.last();
        extend_keeps_most_recent(log, front);
        let before = log_extend(log, front);
        append_keeps_valid(before, line);
        if line.len() == 0 {
            assert(stored(lines) == stored(front));
        } else {
            assert(stored(lines) == stored(front).push(line));
            let all = log + stored(front);
            assert(log + stored(lines) =~= all.push(line));
            assert(log_append(before, line) =~= most_recent(all.push(line)));
        }
    }
}

/// Starting from an empty history, after more lines with segments than the
/// capacity were offered, the history holds exactly the last `MAX_LOG_LINES`
/// of them.
pub proof fn overflow_keeps_last(lines: Seq<Seq<SegmentView>>)
    requires
        lines.len() > MAX_LOG_LINES,
        forall|i: int| 0 <= i < lines.len() ==> (#[trigger] lines[i]).len() > 0,
    ensures
        log_extend(Seq::empty(), lines) == lines.subrange(
            lines.len() - MAX_LOG_LINES,
            lines.len() as int,
        ),
{
    extend_keeps_most_recent(Seq::empty(), lines);
    stored_keeps_all(lines);
    assert(Seq::<Seq<SegmentView>>::empty() + stored(lines) =~= lines);
}

/// Lines that all have segments are all stored.
proof fn stored_keeps_all(lines: Seq<Seq<SegmentView>>)
    requires
        forall|i: int| 0 <= i < lines.len() ==> (#[trigger] lines[i]).len() > 0,
    ensures
        stored(lines) == lines,
    decreases lines.len(),
{
    reveal(Seq::filter);
    if lines.len() > 0 {
        stored_keeps_all(lines.drop_last());
        assert(lines.drop_last().push(lines.last()) =~= lines);
    }
}

/// The views of a sequence of lines, in order.
pub open spec fn line_views(lines: Seq<Vec<AnsiSegment>>) -> Seq<Seq<SegmentView>> {
    lines.map_values(|line: Vec<AnsiSegment>| segment_views(line@))
}

/// The bounded history of log lines, oldest first.
pub struct LogBuffer {
    lines: VecDeque<Vec<AnsiSegment>>,
}

impl View for LogBuffer {
    type V = Seq<Seq<SegmentView>>;

    closed spec fn view(&self) -> Seq<Seq<SegmentView>> {
        line_views(self.lines@)
    }
}

impl LogBuffer {
    /// An empty history.
    pub fn new() -> (log: LogBuffer)
        ensures
            log@ == Seq::<Seq<SegmentView>>::empty(),
    {
        let lines: VecDeque<Vec<AnsiSegment>> = VecDeque::with_capacity(MAX_LOG_LINES);
        assert(line_views(lines@) =~= Seq::empty());
        LogBuffer { lines }
    }

    /// The number of lines held.
    pub fn len(&self) -> (len: usize)
        ensures
            len == self@.len(),
    {
        self.lines.len()
    }

    /// Offers a line to the history.
    pub fn append(&mut self, line: Vec<AnsiSegment>)
        ensures
            final(self)@ == log_append(old(self)@, segment_views(line@)),
            log_valid(old(self)@) ==> log_valid(final(self)@),
    {
        if line.len() > 0 {
            if self.lines.len() >= MAX_LOG_LINES {
                let _ = self.lines.pop_front();
                assert(line_views(self.lines@) =~= old(self)@.drop_first());
            }
            let ghost before = self.lines@;
            self.lines.push_back(line);
            assert(line_views(self.lines@) =~= line_views(before).push(segment_views(line@)));
        }
    }

    /// Removes every line.
    pub fn clear(&mut self)
        ensures
            final(self)@ == Seq::<Seq<SegmentView>>::empty(),
    {
        self.lines.clear();
        assert(line_views(self.lines@) =~= Seq::empty());
    }

    /// A copy of the lines, oldest first and newest last.
    pub fn snapshot(&self) -> (lines: Vec<Vec<AnsiSegment>>)
        ensures
            line_views(lines@) == self@,
    {
        let mut lines: Vec<Vec<AnsiSegment>> = Vec::new();
        let mut i: usize = 0;
        while i < self.lines.len()
            invariant
                i <= self.lines.len(),
                line_views(lines@) == self@.take(i as int),
            decreases self.lines.len() - i,
        {
            let copy = copy_line(&self.lines[i]);
            let ghost before = lines@;
            lines.push(copy);
            assert(line_views(lines@) =~= line_views(before).push(segment_views(copy@)));
            assert(self@.take(i + 1) =~= self@.take(i as int).push(self@[i as int]));
            i = i + 1;
        }
        assert(self@.take(i as int) =~= self@);
        lines
    }
}

/// A copy of one line, segment by segment.
fn copy_line(line: &Vec<AnsiSegment>) -> (copy: Vec<AnsiSegment>)
    ensures
        segment_views(copy@) == segment_views(line@),
{
    let mut copy: Vec<AnsiSegment> = Vec::new();
    let mut i: usize = 0;
    while i < line.len()
        invariant
            i <= line.len(),
            segment_views(copy@) == segment_views(line@).take(i as int),
        decreases line.len() - i,
    {
        let segment = line[i].clone();
        let ghost before = copy@;
        copy.push(segment);
        assert(segment_views(copy@) =~= segment_views(before).push(segment@));
        assert(segment_views(line@).take(i + 1) =~= segment_views(line@).take(i as int).push(
            line[i as int]@,
        ));
        i = i + 1;
    }
    assert(segment_views(line@).take(i as int) =~= segment_views(line@));
    copy
}

/// Parses `message` into coloured segments and offers the line to the history.
pub fn add_log_impl(logs: &mut LogBuffer, message: String)
    ensures
        final(logs)@ == log_append(old(logs)@, segments_of(ansi_parse_blocks(message@))),
        log_valid(old(logs)@) ==> log_valid(final(logs)@),
{
    let line = parse_line(message.as_str());
    logs.append(line);
}

} // verus!
