use crate::bridge::{display_text, label_text, ScriptValue};
use crate::cell::{change_of, reported, BorrowConflict, BorrowState, Change, CellStore, Ref};
use crate::dispatch::{is_current, Vapo};
use crate::surface::{show_button, show_label, show_text_edit};
use vstd::prelude::*;

verus! {

/// The script's handle of the UI surface for one frame. It reaches the
/// surface only while the frame that lent it is in progress.
#[derive(Debug, Clone, Copy, PartialEq, Eq)]
pub struct GUIData {
    frame: u64,
}

/// A context used outside the frame that lent it.
#[derive(Debug, Clone, Copy, PartialEq, Eq)]
pub struct OutOfContext;

impl GUIData {
    /// The frame that lent this context.
    pub closed spec fn frame(&self) -> nat {
        self.frame as nat
    }

    pub(crate) fn lent(frame: u64) -> (r: GUIData)
        ensures
            r.frame() == frame,
    {
        GUIData { frame }
    }

    /// Whether this context may reach the surface now.
    pub open spec fn is_live(&self, vapo: &Vapo) -> bool {
        is_current(self.frame(), vapo@)
    }

    /// Checks that this context may reach the surface.
    pub fn ui(&self, vapo: &Vapo) -> (r: Result<(), OutOfContext>)
        ensures
            r is Ok <==> self.is_live(vapo),
    {
        if vapo.is_lent(self.frame) {
            Ok(())
        } else {
            Err(OutOfContext)
        }
    }

    /// Shows `text` as a label, and returns the text shown: a value without a
    /// text form shows the placeholder.
    pub fn label(&self, vapo: &Vapo, ui: &mut egui::Ui, text: &ScriptValue) -> (shown: String)
        requires
            self.is_live(vapo),
        ensures
            shown@ == display_text(text@),
    {
        let shown = label_text(text);
        show_label(ui, shown.as_str());
        shown
    }

    /// Shows a button labelled as `label` would show `text`. Returns whether
    /// it was clicked this frame, and the label shown.
    pub fn button(&self, vapo: &Vapo, ui: &mut egui::Ui, text: &ScriptValue) -> (r: (bool, String))
        requires
            self.is_live(vapo),
        ensures
            r.1@ == display_text(text@),
    {
        let shown = label_text(text);
        let clicked = show_button(ui, shown.as_str()).clicked();
        (clicked, shown)
    }

    /// Shows a text field over the cell's text and stores the user's edit in
    /// it. Reports the change when the text differs from what the cell held.
    pub fn input(
        &self,
        vapo: &Vapo,
        ui: &mut egui::Ui,
        store: &mut CellStore<String>,
        cell: &Ref<String>,
    ) -> (r: Result<Option<Change>, BorrowConflict>)
        requires
            self.is_live(vapo),
            cell.valid(old(store)@),
        ensures
            match r {
                Err(_) => old(store)@[cell.id()].borrow != BorrowState::Free && final(store)@ == old(store)@,
                Ok(c) => {
                    &&& old(store)@[cell.id()].borrow == BorrowState::Free
                    &&& final(store)@.len() == old(store)@.len()
                    &&& forall|j: int|
                        0 <= j < old(store)@.len() && j != cell.id() ==> #[trigger] final(store)@[j]
                            == old(store)@[j]
                    &&& final(store)@[cell.id()].holders == old(store)@[cell.id()].holders
                    &&& final(store)@[cell.id()].borrow == BorrowState::Free
                    &&& final(store)@[cell.id()].value is Some
                    &&& change_of(c) == reported(
                        old(store)@[cell.id()].value.unwrap(),
                        final(store)@[cell.id()].value.unwrap(),
                    )
                },
            },
    {
        match cell.begin_edit(store) {
            Err(e) => Err(e),
            Ok(text) => {
                let mut edited = text;
                show_text_edit(ui, &mut edited);
                Ok(cell.apply_edit(store, edited))
            },
        }
    }
}

} // verus!
