//! System-clipboard access for cut, copy and paste.
//!
//! The clipboard is platform state outside this crate: what a read returns
//! depends on the environment, so the wrappers promise nothing about their
//! results, and the editing logic is specified for every value they may hand
//! back.

use vstd::prelude::*;

verus! {

#[verifier::external_type_specification]
#[verifier::external_body]
pub struct ExClipboard(arboard::Clipboard);

/// Relies on arboard::Clipboard::new: a handle to the system clipboard, or
/// `None` where the platform offers none (for instance with no display
/// server); the editing logic then treats the clipboard as unavailable.
#[verifier::external_body]
pub(crate) fn clipboard_new() -> (r: Option<arboard::Clipboard>) {
    arboard::Clipboard::new().ok()
}

/// Relies on arboard::Clipboard::get_text: the clipboard's current text as
/// codepoints, or `None` when it is empty or unreadable.
#[verifier::external_body]
pub(crate) fn clipboard_get(clip: &mut arboard::Clipboard) -> (r: Option<Vec<char>>) {
    match clip.get_text() {
        Ok(s) => Some(s.chars().collect()),
        Err(_) => None,
    }
}

/// Relies on arboard::Clipboard::set_text: places the text on the system
/// clipboard and reports whether the platform accepted it.
#[verifier::external_body]
pub(crate) fn clipboard_set(clip: &mut arboard::Clipboard, text: &Vec<char>) -> (ok: bool) {
    let s: String = text.iter().collect();
    clip.set_text(s).is_ok()
}

} // verus!
