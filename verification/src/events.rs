//! The render/input loop's decisions. The loop's whole state is the last
//! known terminal size; each iteration hands one observed event to `step`,
//! which updates that state and says what to do next. Polling the terminal,
//! drawing, and running the status check are the binary's work.

use vstd::prelude::*;

verus! {

/// One observation of the terminal, as the loop's driver reads it: a key
/// press, an explicit resize notice with the new size, a quiet poll timeout
/// together with the size the terminal reports when asked directly, or any
/// other event.
#[derive(Clone, Copy, PartialEq, Eq, Structural, Debug)]
pub enum TermEvent {
    Key(char),
    Resize(u16, u16),
    Tick(u16, u16),
    Other,
}

/// What the loop's driver must do next.
#[derive(Clone, Copy, PartialEq, Eq, Structural, Debug)]
pub enum Action {
    /// Leave the loop and restore the terminal.
    Quit,
    /// Run the status check and print its line.
    CheckStatus,
    /// Redraw the whole screen at the (updated) last known size.
    Redraw,
    /// Nothing to do.
    Idle,
}

/// The loop's only state: the last known terminal size.
#[derive(Clone, Copy, PartialEq, Eq, Structural, Debug)]
pub struct LoopState {
    pub cols: u16,
    pub rows: u16,
}

/// The loop's transition function. A lowercase 'q' quits and a lowercase 'c'
/// checks the status, from any state; other keys and foreign events do
/// nothing. A resize event adopts the event's size and redraws. A quiet poll
/// whose direct size query disagrees with the last known size is an implicit
/// resize: adopt and redraw; an agreeing one does nothing.
pub open spec fn spec_step(s: LoopState, e: TermEvent) -> (LoopState, Action) {
    match e {
        TermEvent::Key(k) => if k == 'q' {
            (s, Action::Quit)
        } else if k == 'c' {
            (s, Action::CheckStatus)
        } else {
            (s, Action::Idle)
        },
        TermEvent::Resize(c, r) => ((LoopState { cols: c, rows: r }), Action::Redraw),
        TermEvent::Tick(c, r) => if c == s.cols && r == s.rows {
            (s, Action::Idle)
        } else {
            ((LoopState { cols: c, rows: r }), Action::Redraw)
        },
        TermEvent::Other => (s, Action::Idle),
    }
}

/// Advances the loop by one observed event, exactly as `spec_step` says.
pub fn step(state: &mut LoopState, e: TermEvent) -> (a: Action)
    ensures
        *final(state) == spec_step(*old(state), e).0,
        a == spec_step(*old(state), e).1,
{
    match e {
        TermEvent::Key(k) => {
            if k == 'q' {
                Action::Quit
            } else if k == 'c' {
                Action::CheckStatus
            } else {
                Action::Idle
            }
        },
        TermEvent::Resize(c, r) => {
            state.cols = c;
            state.rows = r;
            Action::Redraw
        },
        TermEvent::Tick(c, r) => {
            if c == state.cols && r == state.rows {
                Action::Idle
            } else {
                state.cols = c;
                state.rows = r;
                Action::Redraw
            }
        },
        TermEvent::Other => Action::Idle,
    }
}

/// A quit keypress ends the loop from every state — even right after a
/// status display — and nothing else was asked of the loop at that point.
pub proof fn lemma_quit_always_quits(s: LoopState)
    ensures
        spec_step(s, TermEvent::Key('q')).1 == Action::Quit,
        spec_step(s, TermEvent::Key('q')).0 == s,
{
}

/// After a resize event the last known size is the event's size — so a size
/// query right after it, and the redraw it orders, already see the new size.
pub proof fn lemma_resize_updates_size(s: LoopState, c: u16, r: u16)
    ensures
        spec_step(s, TermEvent::Resize(c, r)).0 == (LoopState { cols: c, rows: r }),
        spec_step(s, TermEvent::Resize(c, r)).1 == Action::Redraw,
{
}

/// A quiet poll acts as an implicit resize exactly when the size the
/// terminal reports differs from the last known one.
pub proof fn lemma_tick_detects_resize(s: LoopState, c: u16, r: u16)
    ensures
        (c != s.cols || r != s.rows) ==> spec_step(s, TermEvent::Tick(c, r)) == ((LoopState {
            cols: c,
            rows: r,
        }), Action::Redraw),
        (c == s.cols && r == s.rows) ==> spec_step(s, TermEvent::Tick(c, r)) == (s, Action::Idle),
{
}

} // verus!
