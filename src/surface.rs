//! The calls this library makes into egui's immediate-mode UI.
use vstd::prelude::*;

verus! {

#[verifier::external_type_specification]
#[verifier::external_body]
pub struct ExUi(egui::Ui);

#[verifier::external_type_specification]
#[verifier::external_body]
pub struct ExResponse(egui::Response);

#[verifier::external_type_specification]
#[verifier::external_body]
pub struct ExColor32(egui::Color32);

/// The opaque colour with red, green and blue components `r`, `g`, `b`.
pub assume_specification[ egui::Color32::from_rgb ](r: u8, g: u8, b: u8) -> egui::Color32;

/// Relies on egui::Ui::label: adds a text label to the UI.
#[verifier::external_body]
pub(crate) fn show_label(ui: &mut egui::Ui, text: &str) {
    ui.label(text);
}

/// Relies on egui::Ui::colored_label: adds a label drawn in `color`.
#[verifier::external_body]
pub(crate) fn show_colored_label(ui: &mut egui::Ui, color: egui::Color32, text: &str) {
    ui.colored_label(color, text);
}

/// Relies on egui::Ui::button: adds a button and hands back its response.
#[verifier::external_body]
pub(crate) fn show_button(ui: &mut egui::Ui, text: &str) -> egui::Response {
    ui.button(text)
}

/// Relies on egui::Ui::text_edit_singleline: adds a one-line text field
/// showing `text`, into which the user's edits of this frame are applied.
#[verifier::external_body]
pub(crate) fn show_text_edit(ui: &mut egui::Ui, text: &mut String) {
    ui.text_edit_singleline(text);
}

/// Whether the widget was clicked this frame; that depends on user input.
pub assume_specification[ egui::Response::clicked ](response: &egui::Response) -> bool;

} // verus!
