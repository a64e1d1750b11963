//! Text of the page's elements, in the browser client.

use vstd::prelude::*;

verus! {

/// Relies on web_sys's `window`, `Window::document`,
/// `Document::get_element_by_id` and `Node::set_text_content`: sets the text of
/// the element `id` of the current page, and reports whether it exists. These
/// bindings answer only on the wasm32 target that the client runs on.
#[verifier::external_body]
fn write_text_content(id: &str, content: &str) -> (found: bool) {
    match web_sys::window().and_then(|w| w.document()).and_then(|d| d.get_element_by_id(id)) {
        Some(element) => {
            element.set_text_content(Some(content));
            true
        },
        None => false,
    }
}

/// Sets the text of the element `id`; returns whether such an element exists.
/// Runs only in the browser client (wasm32): on any other target the web_sys
/// bindings panic when called.
pub fn set_text(id: &str, content: String) -> (found: bool) {
    set_text_str(id, content.as_str())
}

/// Sets the text of the element `id`; returns whether such an element exists.
/// Runs only in the browser client (wasm32): on any other target the web_sys
/// bindings panic when called.
pub fn set_text_str(id: &str, content: &str) -> (found: bool) {
    write_text_content(id, content)
}

} // verus!
