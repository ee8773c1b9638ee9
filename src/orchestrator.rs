//! The press-to-display cycle: wait for a press, wait for readiness, fetch,
//! then render page by page, advancing on each further press.

use crate::fetch::FetchError;
use crate::input::InputEvent;
use crate::pagination::PageLayout;
use vstd::prelude::*;

verus! {

#[derive(Clone, Copy, Debug, PartialEq, Eq, Structural)]
pub enum CyclePhase {
    Idle,
    AwaitingReady,
    Fetching,
    Displaying,
}

/// What the cycle reacts to.
#[derive(Clone, Copy, Debug, PartialEq, Eq)]
pub enum CycleEvent {
    Input(InputEvent),
    /// Readiness has been reached.
    ReadinessSatisfied,
    /// The fetch ended, with the measured layout of its text or an error.
    FetchFinished(Result<PageLayout, FetchError>),
}

/// What the caller does next.
#[derive(Clone, Copy, Debug, PartialEq, Eq, Structural)]
pub enum CycleAction {
    Nothing,
    /// Poll readiness until it holds, then report `ReadinessSatisfied`.
    AwaitReadiness,
    /// Fetch the text, then report `FetchFinished`.
    StartFetch,
    /// Render the text scrolled down by `offset` pixels.
    Render { offset: u32 },
}

/// The cycle's state; `layout` is the text on screen while displaying.
#[derive(Clone, Copy, Debug, PartialEq, Eq)]
pub struct Orchestrator {
    pub phase: CyclePhase,
    pub layout: PageLayout,
}

impl Orchestrator {
    /// While displaying, the layout is sound and more text remains below.
    pub open spec fn wf(&self) -> bool {
        self.phase == CyclePhase::Displaying ==> self.layout.wf() && !self.layout.spec_is_last_page()
    }

    /// After rendering `layout`: keep displaying if text remains, else the cycle ends.
    pub open spec fn after_render(layout: PageLayout) -> Orchestrator {
        Orchestrator {
            phase: if layout.spec_is_last_page() {
                CyclePhase::Idle
            } else {
                CyclePhase::Displaying
            },
            layout,
        }
    }

    /// The transition on one event. Presses start a cycle only when idle and
    /// advance the view only while displaying; every other press or release
    /// is ignored.
    pub open spec fn spec_step(self, ev: CycleEvent) -> (Orchestrator, CycleAction) {
        match (self.phase, ev) {
            (CyclePhase::Idle, CycleEvent::Input(InputEvent::Pressed)) => (
                Orchestrator { phase: CyclePhase::AwaitingReady, ..self },
                CycleAction::AwaitReadiness,
            ),
            (CyclePhase::AwaitingReady, CycleEvent::ReadinessSatisfied) => (
                Orchestrator { phase: CyclePhase::Fetching, ..self },
                CycleAction::StartFetch,
            ),
            (CyclePhase::Fetching, CycleEvent::FetchFinished(Ok(l))) => {
                let layout = PageLayout::initial(l.total_text_height, l.screen_height);
                (Orchestrator::after_render(layout), CycleAction::Render { offset: 0 })
            },
            (CyclePhase::Fetching, CycleEvent::FetchFinished(Err(_))) => (
                Orchestrator { phase: CyclePhase::Idle, ..self },
                CycleAction::Nothing,
            ),
            (CyclePhase::Displaying, CycleEvent::Input(InputEvent::Pressed)) => {
                let layout = self.layout.advanced();
                (Orchestrator::after_render(layout), CycleAction::Render { offset: layout.current_offset })
            },
            _ => (self, CycleAction::Nothing),
        }
    }

    /// Idle, before any press.
    pub fn new() -> (r: Orchestrator)
        ensures
            r.wf(),
            r.phase == CyclePhase::Idle,
    {
        Orchestrator { phase: CyclePhase::Idle, layout: PageLayout::new(0, 0) }
    }

    fn show(layout: PageLayout) -> (r: (Orchestrator, CycleAction))
        requires
            layout.wf(),
        ensures
            r == (Orchestrator::after_render(layout), CycleAction::Render { offset: layout.current_offset }),
    {
        let phase = if layout.is_last_page() {
            CyclePhase::Idle
        } else {
            CyclePhase::Displaying
        };
        (Orchestrator { phase, layout }, CycleAction::Render { offset: layout.current_offset })
    }

    /// Takes one event and returns what to do next. A failed fetch ends the
    /// cycle with nothing rendered; a fetched text is rendered from the top and
    /// the cycle ends once the last page has been rendered.
    pub fn step(&mut self, ev: CycleEvent) -> (r: CycleAction)
        requires
            old(self).wf(),
        ensures
            (*final(self), r) == old(self).spec_step(ev),
            final(self).wf(),
            r is Render ==> final(self).layout.wf() && r->offset == final(self).layout.current_offset,
    {
        match (self.phase, ev) {
            (CyclePhase::Idle, CycleEvent::Input(InputEvent::Pressed)) => {
                self.phase = CyclePhase::AwaitingReady;
                CycleAction::AwaitReadiness
            },
            (CyclePhase::AwaitingReady, CycleEvent::ReadinessSatisfied) => {
                self.phase = CyclePhase::Fetching;
                CycleAction::StartFetch
            },
            (CyclePhase::Fetching, CycleEvent::FetchFinished(Ok(l))) => {
                let (next, action) = Orchestrator::show(PageLayout::new(l.total_text_height, l.screen_height));
                *self = next;
                action
            },
            (CyclePhase::Fetching, CycleEvent::FetchFinished(Err(_))) => {
                self.phase = CyclePhase::Idle;
                CycleAction::Nothing
            },
            (CyclePhase::Displaying, CycleEvent::Input(InputEvent::Pressed)) => {
                let mut layout = self.layout;
                layout.advance();
                let (next, action) = Orchestrator::show(layout);
                *self = next;
                action
            },
            _ => CycleAction::Nothing,
        }
    }
}

} // verus!
