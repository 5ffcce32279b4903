//! From one line of terminal output to its coloured segments.
//!
//! A line is first cut into blocks: runs of plain text and control sequences.
//! The blocks are then folded into segments. Text gathers in a pending buffer
//! under the colour that is active; a graphics-mode sequence that changes the
//! colour closes the pending buffer as a segment first. A buffer that is empty
//! is never closed into a segment, so no segment has empty text.

use crate::color::{color_of_code, is_color_code, AnsiColor};
use ansi_parser::{AnsiParser, AnsiSequence, Output};
use vstd::prelude::*;
use vstd::string::StringExecFns;

verus! {

/// A run of text shown in one colour; `None` is the default colour.
#[derive(Debug)]
pub struct AnsiSegment {
    pub text: String,
    pub color: Option<AnsiColor>,
}

/// What a segment is to the contracts: its characters and its colour.
pub struct SegmentView {
    pub text: Seq<char>,
    pub color: Option<AnsiColor>,
}

impl View for AnsiSegment {
    type V = SegmentView;

    open spec fn view(&self) -> SegmentView {
        SegmentView { text: self.text@, color: self.color }
    }
}

impl Clone for AnsiSegment {
    fn clone(&self) -> (copy: AnsiSegment)
        ensures
            copy@ == self@,
    {
        AnsiSegment { text: self.text.clone(), color: self.color }
    }
}

/// One piece of a line: plain text, a graphics-mode sequence with its
/// parameters, or any other control sequence.
#[derive(Debug)]
pub enum AnsiBlock {
    Text(String),
    Graphics(Vec<u8>),
    Control,
}

/// What a block is to the contracts.
pub enum BlockView {
    Text(Seq<char>),
    Graphics(Seq<u8>),
    Control,
}

impl View for AnsiBlock {
    type V = BlockView;

    open spec fn view(&self) -> BlockView {
        match self {
            AnsiBlock::Text(text) => BlockView::Text(text@),
            AnsiBlock::Graphics(codes) => BlockView::Graphics(codes@),
            AnsiBlock::Control => BlockView::Control,
        }
    }
}

/// The views of a sequence of segments, in order.
pub open spec fn segment_views(segments: Seq<AnsiSegment>) -> Seq<SegmentView> {
    segments.map_values(|segment: AnsiSegment| segment@)
}

/// The views of a sequence of blocks, in order.
pub open spec fn block_views(blocks: Seq<AnsiBlock>) -> Seq<BlockView> {
    blocks.map_values(|block: AnsiBlock| block@)
}

/// Where the fold stands: the segments closed so far, the pending text, and
/// the colour under which it gathers.
pub struct Scan {
    pub done: Seq<SegmentView>,
    pub text: Seq<char>,
    pub color: Option<AnsiColor>,
}

impl Scan {
    /// The fold before the first block: nothing closed, nothing pending,
    /// default colour.
    pub open spec fn start() -> Scan {
        Scan { done: Seq::empty(), text: Seq::empty(), color: None }
    }

    /// Closes the pending text as a segment, unless there is none.
    pub open spec fn flush(self) -> Scan {
        if self.text.len() == 0 {
            self
        } else {
            Scan {
                done: self.done.push(SegmentView { text: self.text, color: self.color }),
                text: Seq::empty(),
                color: self.color,
            }
        }
    }

    /// Closes the pending text and continues under `color`.
    pub open spec fn recolor(self, color: Option<AnsiColor>) -> Scan {
        Scan { color, ..self.flush() }
    }

    /// One graphics-mode parameter: 0 and 39 go back to the default colour,
    /// a colour parameter selects its colour, anything else changes nothing.
    pub open spec fn code(self, code: u8) -> Scan {
        if code == 0 || code == 39 {
            self.recolor(None)
        } else if is_color_code(code) {
            self.recolor(Some(color_of_code(code)))
        } else {
            self
        }
    }

    /// The parameters of one graphics-mode sequence, first to last.
    pub open spec fn codes(self, codes: Seq<u8>) -> Scan
        decreases codes.len(),
    {
        if codes.len() == 0 {
            self
        } else {
            self.codes(codes.drop_last()).code(codes.last())
        }
    }

    /// One block: text joins the pending buffer, a graphics-mode sequence
    /// without parameters goes back to the default colour, one with
    /// parameters applies them in order, any other sequence is dropped.
    pub open spec fn block(self, block: BlockView) -> Scan {
        match block {
            BlockView::Text(text) => Scan { text: self.text + text, ..self },
            BlockView::Graphics(codes) => if codes.len() == 0 {
                self.recolor(None)
            } else {
                self.codes(codes)
            },
            BlockView::Control => self,
        }
    }

    /// The blocks of a line, first to last.
    pub open spec fn blocks(self, blocks: Seq<BlockView>) -> Scan
        decreases blocks.len(),
    {
        if blocks.len() == 0 {
            self
        } else {
            self.blocks(blocks.drop_last()).block(blocks.last())
        }
    }

    /// No segment closed so far has empty text.
    pub open spec fn solid(self) -> bool {
        forall|i: int| 0 <= i < self.done.len() ==> (#[trigger] self.done[i]).text.len() > 0
    }
}

/// The segments of a line that was cut into `blocks`: the fold over all
/// blocks, with the text still pending at the end closed as the last segment.
pub open spec fn segments_of(blocks: Seq<BlockView>) -> Seq<SegmentView> {
    Scan::start().blocks(blocks).flush().done
}

impl Scan {
    /// Closing the pending text keeps every closed segment non-empty.
    pub proof fn flush_solid(self)
        requires
            self.solid(),
        ensures
            self.flush().solid(),
            self.flush().text.len() == 0,
    {
    }

    /// Applying graphics-mode parameters keeps every closed segment non-empty.
    pub proof fn codes_solid(self, codes: Seq<u8>)
        requires
            self.solid(),
        ensures
            self.codes(codes).solid(),
        decreases codes.len(),
    {
        if codes.len() > 0 {
            self.codes_solid(codes.drop_last());
            self.codes(codes.drop_last()).flush_solid();
        }
    }

    /// Folding blocks keeps every closed segment non-empty.
    pub proof fn blocks_solid(self, blocks: Seq<BlockView>)
        requires
            self.solid(),
        ensures
            self.blocks(blocks).solid(),
        decreases blocks.len(),
    {
        if blocks.len() > 0 {
            self.blocks_solid(blocks.drop_last());
            let before = self.blocks(blocks.drop_last());
            before.flush_solid();
            match blocks.last() {
                BlockView::Graphics(codes) => before.codes_solid(codes),
                _ => {},
            }
        }
    }
}

/// No line, however it was cut into blocks, gives a segment with empty text.
pub proof fn segments_never_empty(blocks: Seq<BlockView>)
    ensures
        forall|i: int|
            0 <= i < segments_of(blocks).len() ==> (#[trigger] segments_of(
                blocks,
            )[i]).text.len() > 0,
{
    Scan::start().blocks_solid(blocks);
    Scan::start().blocks(blocks).flush_solid();
}

/// The fold as it runs: the segments closed so far, the pending text and the
/// active colour.
struct Scanner {
    done: Vec<AnsiSegment>,
    text: String,
    color: Option<AnsiColor>,
}

impl View for Scanner {
    type V = Scan;

    closed spec fn view(&self) -> Scan {
        Scan { done: segment_views(self.done@), text: self.text@, color: self.color }
    }
}

impl Scanner {
    fn new() -> (scanner: Scanner)
        ensures
            scanner@ == Scan::start(),
    {
        let scanner = Scanner { done: Vec::new(), text: String::new(), color: None };
        assert(segment_views(scanner.done@) =~= Seq::empty());
        scanner
    }

    fn flush(&mut self)
        ensures
            final(self)@ == old(self)@.flush(),
    {
        if !self.text.as_str().is_empty() {
            let mut text = String::new();
            std::mem::swap(&mut self.text, &mut text);
            let segment = AnsiSegment { text, color: self.color };
            self.done.push(segment);
            assert(segment_views(self.done@) =~= segment_views(old(self).done@).push(segment@));
        }
    }

    fn recolor(&mut self, color: Option<AnsiColor>)
        ensures
            final(self)@ == old(self)@.recolor(color),
    {
        self.flush();
        self.color = color;
    }

    fn code(&mut self, code: u8)
        ensures
            final(self)@ == old(self)@.code(code),
    {
        if code == 0 || code == 39 {
            self.recolor(None);
        } else {
            match AnsiColor::from_code(code) {
                Some(color) => {
                    self.recolor(Some(color));
                },
                None => {},
            }
        }
    }

    fn codes(&mut self, codes: &Vec<u8>)
        ensures
            final(self)@ == old(self)@.codes(codes@),
    {
        let mut i: usize = 0;
        while i < codes.len()
            invariant
                i <= codes.len(),
                self@ == old(self)@.codes(codes@.take(i as int)),
            decreases codes.len() - i,
        {
            assert(codes@.take(i + 1).drop_last() =~= codes@.take(i as int));
            self.code(codes[i]);
            i = i + 1;
        }
        assert(codes@.take(i as int) =~= codes@);
    }

    fn block(&mut self, block: &AnsiBlock)
        ensures
            final(self)@ == old(self)@.block(block@),
    {
        match block {
            AnsiBlock::Text(text) => {
                self.text.append(text.as_str());
            },
            AnsiBlock::Graphics(codes) => {
                if codes.len() == 0 {
                    self.recolor(None);
                } else {
                    self.codes(codes);
                }
            },
            AnsiBlock::Control => {},
        }
    }
}

/// Folds the blocks of one line into its segments.
pub fn segments_from_blocks(blocks: &Vec<AnsiBlock>) -> (segments: Vec<AnsiSegment>)
    ensures
        segment_views(segments@) == segments_of(block_views(blocks@)),
        forall|i: int| 0 <= i < segments.len() ==> (#[trigger] segments[i]).text@.len() > 0,
{
    let ghost views = block_views(blocks@);
    let mut scanner = Scanner::new();
    let mut i: usize = 0;
    while i < blocks.len()
        invariant
            i <= blocks.len(),
            views == block_views(blocks@),
            scanner@ == Scan::start().blocks(views.take(i as int)),
        decreases blocks.len() - i,
    {
        assert(views.take(i + 1).drop_last() =~= views.take(i as int));
        scanner.block(&blocks[i]);
        i = i + 1;
    }
    assert(views.take(i as int) =~= views);
    scanner.flush();
    proof {
        segments_never_empty(views);
        assert forall|k: int| 0 <= k < scanner.done.len() implies (#[trigger] scanner.done[k]).text@.len()
            > 0 by {
            assert(segment_views(scanner.done@)[k] == scanner.done[k]@);
        }
    }
    scanner.done
}

/// The blocks into which `ansi_parser` cuts a line, in order.
pub uninterp spec fn ansi_parse_blocks(line: Seq<char>) -> Seq<BlockView>;

/// Runs the iterator that `ansi_parser::AnsiParser::ansi_parse` gives for
/// `line` to its end and hands out its items in order: a `TextBlock` as
/// `Text`, a `SetGraphicsMode` escape as `Graphics` with its parameters, any
/// other escape as `Control`. The contract claims only that the outcome is
/// a function of the line; the iterator reads nothing else, fails on no
/// input and consumes at least one byte at every step.
#[verifier::external_body]
fn ansi_blocks(line: &str) -> (blocks: Vec<AnsiBlock>)
    ensures
        block_views(blocks@) == ansi_parse_blocks(line@),
{
    let mut blocks = Vec::new();
    for output in line.ansi_parse() {
        blocks.push(
            match output {
                Output::TextBlock(text) => AnsiBlock::Text(text.to_string()),
                Output::Escape(AnsiSequence::SetGraphicsMode(codes)) => AnsiBlock::Graphics(
                    codes.to_vec(),
                ),
                Output::Escape(_) => AnsiBlock::Control,
            },
        );
    }
    blocks
}

/// The coloured segments of one line of terminal output. Never fails:
/// control sequences other than colour changes leave no trace.
pub fn parse_line(line: &str) -> (segments: Vec<AnsiSegment>)
    ensures
        segment_views(segments@) == segments_of(ansi_parse_blocks(line@)),
        forall|i: int| 0 <= i < segments.len() ==> (#[trigger] segments[i]).text@.len() > 0,
{
    let blocks = ansi_blocks(line);
    segments_from_blocks(&blocks)
}

} // verus!
