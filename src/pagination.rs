//! Measuring fetched text against the screen and scrolling through it.

use embedded_graphics::mono_font::ascii::FONT_6X10;
use embedded_graphics::mono_font::MonoTextStyle;
use embedded_graphics::pixelcolor::BinaryColor;
use embedded_text::alignment::HorizontalAlignment;
use embedded_text::style::{HeightMode, TextBoxStyleBuilder};
use vstd::prelude::*;
use vstd::arithmetic::div_mod::lemma_fundamental_div_mod;

verus! {

/// Extra vertical space, in pixels, between paragraphs of rendered text.
pub const PARAGRAPH_SPACING: u32 = 6;

/// Longest text, in characters, that is measured; keeps heights far from `u32::MAX`.
pub const MAX_TEXT_CHARS: usize = 65536;

/// Height in pixels of `text` word-wrapped to `max_width` pixels with the 6x10
/// monospace font, justified, with `paragraph_spacing` pixels between paragraphs.
pub uninterp spec fn wrapped_text_height(text: Seq<char>, max_width: u32, paragraph_spacing: u32) -> u32;

/// Relies on embedded_text's `TextBoxStyle::measure_text_height`, which lays the
/// text out line by line and returns its height; the result depends on its
/// arguments alone.
#[verifier::external_body]
fn measure_text_height(text: &str, max_width: u32, paragraph_spacing: u32) -> (r: u32)
    requires
        text@.len() <= MAX_TEXT_CHARS,
        paragraph_spacing <= 64,
    ensures
        r == wrapped_text_height(text@, max_width, paragraph_spacing),
{
    let character_style = MonoTextStyle::new(&FONT_6X10, BinaryColor::On);
    let textbox_style = TextBoxStyleBuilder::new()
        .height_mode(HeightMode::FitToText)
        .alignment(HorizontalAlignment::Justified)
        .paragraph_spacing(paragraph_spacing)
        .build();
    textbox_style.measure_text_height(&character_style, text, max_width)
}

/// `max(0, text_height - screen_height)`.
pub open spec fn max_scroll_offset_of(text_height: u32, screen_height: u32) -> u32 {
    if text_height > screen_height {
        (text_height - screen_height) as u32
    } else {
        0
    }
}

/// How far one advance scrolls: half a screen.
pub open spec fn scroll_step(screen_height: u32) -> u32 {
    screen_height / 2
}

/// The offset after one advance from `offset`, clamped to the last page.
pub open spec fn next_offset(offset: u32, max_offset: u32, screen_height: u32) -> u32 {
    if offset + scroll_step(screen_height) >= max_offset {
        max_offset
    } else {
        (offset + scroll_step(screen_height)) as u32
    }
}

/// The vertical layout of one fetched text on the screen, and how far it is scrolled.
#[derive(Clone, Copy, Debug, PartialEq, Eq)]
pub struct PageLayout {
    pub total_text_height: u32,
    pub screen_height: u32,
    pub max_scroll_offset: u32,
    pub current_offset: u32,
}

impl PageLayout {
    /// The derived bound is right and the view never passes the text's end.
    pub open spec fn wf(&self) -> bool {
        &&& self.max_scroll_offset == max_scroll_offset_of(self.total_text_height, self.screen_height)
        &&& self.current_offset <= self.max_scroll_offset
    }

    /// The first view of a text of the given height.
    pub open spec fn initial(total_text_height: u32, screen_height: u32) -> PageLayout {
        PageLayout {
            total_text_height,
            screen_height,
            max_scroll_offset: max_scroll_offset_of(total_text_height, screen_height),
            current_offset: 0,
        }
    }

    /// Whether the current view shows the end of the text.
    pub open spec fn spec_is_last_page(&self) -> bool {
        self.current_offset >= self.max_scroll_offset
    }

    /// The layout after one advance.
    pub open spec fn advanced(&self) -> PageLayout {
        PageLayout {
            current_offset: next_offset(self.current_offset, self.max_scroll_offset, self.screen_height),
            ..*self
        }
    }

    /// The layout after `k` advances.
    pub open spec fn advanced_times(&self, k: nat) -> PageLayout
        decreases k,
    {
        if k == 0 {
            *self
        } else {
            self.advanced_times((k - 1) as nat).advanced()
        }
    }

    /// Lays out a text of `total_text_height` pixels on a screen `screen_height` pixels tall.
    pub fn new(total_text_height: u32, screen_height: u32) -> (r: PageLayout)
        ensures
            r == PageLayout::initial(total_text_height, screen_height),
            r.wf(),
    {
        let max_scroll_offset: u32 = if total_text_height > screen_height {
            total_text_height - screen_height
        } else {
            0
        };
        PageLayout { total_text_height, screen_height, max_scroll_offset, current_offset: 0 }
    }

    /// Measures `text` wrapped to `width` pixels and lays it out on a screen
    /// `screen_height` pixels tall.
    pub fn for_text(text: &str, width: u32, screen_height: u32) -> (r: PageLayout)
        requires
            text@.len() <= MAX_TEXT_CHARS,
        ensures
            r == PageLayout::initial(
                wrapped_text_height(text@, width, PARAGRAPH_SPACING),
                screen_height,
            ),
            r.wf(),
    {
        let text_height = measure_text_height(text, width, PARAGRAPH_SPACING);
        PageLayout::new(text_height, screen_height)
    }

    /// True when the current view reaches the end of the text.
    pub fn is_last_page(&self) -> (r: bool)
        ensures
            r == self.spec_is_last_page(),
    {
        self.current_offset >= self.max_scroll_offset
    }

    /// Scrolls down by half a screen, stopping at the last page.
    pub fn advance(&mut self)
        requires
            old(self).wf(),
        ensures
            *final(self) == old(self).advanced(),
            final(self).wf(),
    {
        let step: u32 = self.screen_height / 2;
        if self.current_offset >= self.max_scroll_offset || step >= self.max_scroll_offset - self.current_offset {
            self.current_offset = self.max_scroll_offset;
        } else {
            self.current_offset = self.current_offset + step;
        }
    }
}

/// Number of advances after which the view first shows the end of the text:
/// `ceil(max_offset / step)`, and none when everything fits on one screen.
pub open spec fn advances_to_end(max_offset: u32, step: u32) -> nat {
    if max_offset == 0 {
        0
    } else {
        ((max_offset + step - 1) / step as int) as nat
    }
}

proof fn lemma_offset_after(layout: PageLayout, k: nat)
    requires
        layout.wf(),
        layout.current_offset == 0,
    ensures
        layout.advanced_times(k).current_offset as int == if k * scroll_step(layout.screen_height)
            >= layout.max_scroll_offset {
            layout.max_scroll_offset as int
        } else {
            k * scroll_step(layout.screen_height)
        },
        layout.advanced_times(k).wf(),
        layout.advanced_times(k).max_scroll_offset == layout.max_scroll_offset,
        layout.advanced_times(k).screen_height == layout.screen_height,
    decreases k,
{
    let step = scroll_step(layout.screen_height);
    if k > 0 {
        lemma_offset_after(layout, (k - 1) as nat);
        let j = (k - 1) as nat;
        assert(k * step == j * step + step) by (nonlinear_arith)
            requires k == j + 1;
        assert(j * step >= 0) by (nonlinear_arith);
    }
}

proof fn lemma_ceil_div(max_offset: int, step: int, k: int)
    requires
        max_offset > 0,
        step > 0,
        k >= 0,
    ensures
        (k * step >= max_offset) <==> (k >= (max_offset + step - 1) / step),
{
    let n = max_offset + step - 1;
    let c = n / step;
    lemma_fundamental_div_mod(n, step);
    let r = n % step;
    assert(0 <= r < step);
    assert(n == step * c + r);
    if k >= c {
        assert(k * step >= c * step) by (nonlinear_arith)
            requires k >= c, step > 0;
    } else {
        assert(k * step <= c * step - step) by (nonlinear_arith)
            requires k < c, step > 0;
    }
}

/// Pagination of a text `text_height` pixels tall on a screen `screen_height`
/// pixels tall: the view starts at `max_scroll_offset = max(0, text_height -
/// screen_height)` and, after `k` advances, sits at
/// `min(max_scroll_offset, k * (screen_height / 2))`; the last page is reached
/// after exactly `ceil(max_scroll_offset / (screen_height / 2))` advances and
/// not before, so the text is shown in that many renders plus one.
pub proof fn lemma_pagination_terminates(text_height: u32, screen_height: u32, k: nat)
    requires
        screen_height >= 2 || text_height <= screen_height,
    ensures
        ({
            let start = PageLayout::initial(text_height, screen_height);
            let max_offset = max_scroll_offset_of(text_height, screen_height);
            let step = scroll_step(screen_height);
            let view = start.advanced_times(k);
            &&& start.max_scroll_offset as int == if text_height >= screen_height {
                text_height - screen_height
            } else {
                0
            }
            &&& view.current_offset as int == if k * step >= max_offset {
                max_offset as int
            } else {
                k * step
            }
            &&& view.current_offset <= max_offset
            &&& (view.spec_is_last_page() <==> k >= advances_to_end(max_offset, step))
        }),
{
    let start = PageLayout::initial(text_height, screen_height);
    let max_offset = max_scroll_offset_of(text_height, screen_height);
    let step = scroll_step(screen_height);
    lemma_offset_after(start, k);
    if max_offset > 0 {
        lemma_ceil_div(max_offset as int, step as int, k as int);
    } else {
        assert(k * step >= 0) by (nonlinear_arith);
    }
}

/// One command sent to the display while rendering a view.
#[derive(Clone, Copy, Debug, PartialEq, Eq)]
pub enum DrawCommand {
    /// Fill the frame with the background colour.
    Clear,
    /// Draw the whole text moved up by `shift_up` pixels.
    DrawText { shift_up: u32 },
    /// Push the frame to the panel.
    Flush,
}

/// The commands that render the view scrolled down by `offset` pixels.
pub open spec fn render_plan(offset: u32) -> Seq<DrawCommand> {
    seq![DrawCommand::Clear, DrawCommand::DrawText { shift_up: offset }, DrawCommand::Flush]
}

/// The display after one command: the texts drawn into the frame since it was
/// last cleared, and what the panel shows since the last flush.
pub open spec fn apply_command(frame: Seq<u32>, shown: Seq<u32>, c: DrawCommand) -> (Seq<u32>, Seq<u32>) {
    match c {
        DrawCommand::Clear => (Seq::empty(), shown),
        DrawCommand::DrawText { shift_up } => (frame.push(shift_up), shown),
        DrawCommand::Flush => (frame, frame),
    }
}

/// The display after a run of commands.
pub open spec fn apply_commands(frame: Seq<u32>, shown: Seq<u32>, cs: Seq<DrawCommand>) -> (Seq<u32>, Seq<u32>)
    decreases cs.len(),
{
    if cs.len() == 0 {
        (frame, shown)
    } else {
        let next = apply_command(frame, shown, cs[0]);
        apply_commands(next.0, next.1, cs.subrange(1, cs.len() as int))
    }
}

proof fn lemma_render_once(frame: Seq<u32>, shown: Seq<u32>, offset: u32)
    ensures
        apply_commands(frame, shown, render_plan(offset)) == (seq![offset], seq![offset]),
{
    let cs = render_plan(offset);
    let t1 = cs.subrange(1, 3);
    let t2 = t1.subrange(1, 2);
    let t3 = t2.subrange(1, 1);
    assert(t1 =~= seq![DrawCommand::DrawText { shift_up: offset }, DrawCommand::Flush]);
    assert(t2 =~= seq![DrawCommand::Flush]);
    assert(t3 =~= Seq::<DrawCommand>::empty());
    let e = Seq::<u32>::empty();
    assert(e.push(offset) =~= seq![offset]);
    assert(apply_commands(e.push(offset), e.push(offset), t3) == (e.push(offset), e.push(offset)));
    assert(apply_commands(e.push(offset), shown, t2) == (e.push(offset), e.push(offset)));
    assert(apply_commands(e, shown, t1) == (e.push(offset), e.push(offset)));
}

/// Rendering a view shows exactly that view whatever the display held before,
/// so rendering the same offset twice leaves the same visible output as
/// rendering it once.
pub proof fn lemma_render_idempotent(frame: Seq<u32>, shown: Seq<u32>, offset: u32)
    ensures
        ({
            let once = apply_commands(frame, shown, render_plan(offset));
            let twice = apply_commands(once.0, once.1, render_plan(offset));
            &&& once.1 == seq![offset]
            &&& twice == once
        }),
{
    lemma_render_once(frame, shown, offset);
    let once = apply_commands(frame, shown, render_plan(offset));
    lemma_render_once(once.0, once.1, offset);
}

impl PageLayout {
    /// The commands that render the current view.
    pub fn render_commands(&self) -> (r: Vec<DrawCommand>)
        ensures
            r@ == render_plan(self.current_offset),
    {
        let r = vec![
            DrawCommand::Clear,
            DrawCommand::DrawText { shift_up: self.current_offset },
            DrawCommand::Flush,
        ];
        assert(r@ =~= render_plan(self.current_offset));
        r
    }
}

} // verus!
