//! The API methods that come with the library.

pub mod clipboard;
pub mod webview;

use crate::api_manager::ApiManager;
use vstd::prelude::*;

verus! {

/// The native operations that a request can ask for. Each stands for the
/// handler that performs it on the event-loop thread.
#[derive(Debug, Clone, Copy, PartialEq, Eq, Structural)]
pub enum ApiHandler {
    /// Reports whether the web inspector is open.
    IsDevtoolsOpen,
    /// Opens the web inspector.
    OpenDevtools,
    /// Closes the web inspector.
    CloseDevtools,
    /// Puts a text on the clipboard.
    ClipboardSetText,
    /// Reads the text on the clipboard.
    ClipboardGetText,
    /// Empties the clipboard.
    ClipboardClear,
    /// Puts an image on the clipboard.
    ClipboardSetImage,
    /// Reads the image on the clipboard.
    ClipboardGetImage,
}

/// The registry after the methods of every feature module were bound.
pub open spec fn with_api_instances(registry: Map<Seq<char>, ApiHandler>) -> Map<
    Seq<char>,
    ApiHandler,
> {
    webview::with_webview_api(registry)
}

/// Binds the methods of every feature module.
pub fn register_api_instances(api_manager: &mut ApiManager<ApiHandler>)
    ensures
        final(api_manager)@ == with_api_instances(old(api_manager)@),
{
    webview::register_api_instances(api_manager);
}

} // verus!
