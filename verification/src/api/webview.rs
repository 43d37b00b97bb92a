//! The methods that control the web inspector.

use crate::api::ApiHandler;
use crate::api_manager::ApiManager;
use vstd::prelude::*;

verus! {

/// The registry after the web inspector's methods were bound.
pub open spec fn with_webview_api(registry: Map<Seq<char>, ApiHandler>) -> Map<
    Seq<char>,
    ApiHandler,
> {
    registry.insert("webview.isDevtoolsOpen"@, ApiHandler::IsDevtoolsOpen).insert(
        "webview.openDevtools"@,
        ApiHandler::OpenDevtools,
    ).insert("webview.closeDevtools"@, ApiHandler::CloseDevtools)
}

/// Binds the web inspector's methods.
pub fn register_api_instances(api_manager: &mut ApiManager<ApiHandler>)
    ensures
        final(api_manager)@ == with_webview_api(old(api_manager)@),
{
    api_manager.register_api("webview.isDevtoolsOpen", ApiHandler::IsDevtoolsOpen);
    api_manager.register_api("webview.openDevtools", ApiHandler::OpenDevtools);
    api_manager.register_api("webview.closeDevtools", ApiHandler::CloseDevtools);
}

} // verus!
