//! A model of the main window's visible state and of the operations that the
//! shell performs on it.

use vstd::prelude::*;

verus! {

/// What the shell can observe of the main window.
#[derive(Clone, Copy, Debug, PartialEq, Eq, Structural)]
pub struct WindowState {
    pub visible: bool,
    pub minimized: bool,
    pub focused: bool,
}

/// One best-effort operation on the main window.
#[derive(Clone, Copy, Debug, PartialEq, Eq, Structural)]
pub enum WindowOp {
    Unminimize,
    Show,
    Hide,
    SetFocus,
}

impl WindowState {
    /// The window after `op` has taken effect.
    pub open spec fn after(self, op: WindowOp) -> WindowState {
        match op {
            WindowOp::Unminimize => WindowState { minimized: false, ..self },
            WindowOp::Show => WindowState { visible: true, ..self },
            WindowOp::Hide => WindowState { visible: false, focused: false, ..self },
            WindowOp::SetFocus => WindowState { focused: true, ..self },
        }
    }

    /// The window after each of `ops` has taken effect, first to last.
    pub open spec fn after_all(self, ops: Seq<WindowOp>) -> WindowState
        decreases ops.len(),
    {
        if ops.len() == 0 {
            self
        } else {
            self.after_all(ops.drop_last()).after(ops.last())
        }
    }

    /// In the foreground: shown, not minimized and holding input focus.
    pub open spec fn is_revealed(self) -> bool {
        self.visible && !self.minimized && self.focused
    }

    pub fn apply(&mut self, op: WindowOp)
        ensures
            *final(self) == old(self).after(op),
    {
        match op {
            WindowOp::Unminimize => self.minimized = false,
            WindowOp::Show => self.visible = true,
            WindowOp::Hide => {
                self.visible = false;
                self.focused = false;
            },
            WindowOp::SetFocus => self.focused = true,
        }
    }

    pub fn apply_all(&mut self, ops: &Vec<WindowOp>)
        ensures
            *final(self) == old(self).after_all(ops@),
    {
        let ghost start = *self;
        let mut i: usize = 0;
        while i < ops.len()
            invariant
                i <= ops@.len(),
                *self == start.after_all(ops@.subrange(0, i as int)),
            decreases ops@.len() - i,
        {
            let ghost before = ops@.subrange(0, i as int);
            self.apply(ops[i]);
            proof {
                let next = ops@.subrange(0, i + 1);
                assert(next.drop_last() =~= before);
                assert(next.last() == ops@[i as int]);
            }
            i = i + 1;
        }
        assert(ops@.subrange(0, ops@.len() as int) =~= ops@);
    }
}

/// Unminimize, show and focus, in that order, bring any window to the
/// foreground.
pub proof fn lemma_reveal_ops(w: WindowState)
    ensures
        w.after_all(seq![WindowOp::Unminimize, WindowOp::Show, WindowOp::SetFocus]).is_revealed(),
{
    reveal_with_fuel(WindowState::after_all, 4);
    let ops = seq![WindowOp::Unminimize, WindowOp::Show, WindowOp::SetFocus];
    assert(ops.drop_last() =~= seq![WindowOp::Unminimize, WindowOp::Show]);
    assert(ops.drop_last().drop_last() =~= seq![WindowOp::Unminimize]);
    assert(ops.drop_last().drop_last().drop_last() =~= Seq::<WindowOp>::empty());
}

} // verus!
