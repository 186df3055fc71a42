//! What the shell needs to show a window for one of the backend's UI
//! pages: its exact title and the exact URL it navigates to.

use vstd::prelude::*;

use crate::pages::page_title;
use crate::pages::spec_title_for;
use crate::settings::Settings;
use crate::urls::app_page_url;
use crate::urls::app_page_url_spec;

verus! {

/// The fixed size of a newly built window.
pub const WINDOW_WIDTH: u64 = 1280;

/// The fixed size of a newly built window.
pub const WINDOW_HEIGHT: u64 = 720;

/// Everything the GUI layer needs to build or refocus the main window.
pub struct WindowRequest {
    pub title: String,
    pub url: String,
}

/// The full window title for a page key: the page's title word followed
/// by the product name.
pub open spec fn window_title_spec(page: Seq<char>) -> Option<Seq<char>> {
    match spec_title_for(page) {
        Some(t) => Some(t + " | System Bridge"@),
        None => None,
    }
}

/// Builds the window request for a page key: the full title and the
/// page's URL. A key that names no page yields `None`; the shell shows
/// no window for it rather than defaulting.
pub fn window_request(settings: &Settings, page: &str) -> (r: Option<WindowRequest>)
    requires
        settings.wf(),
    ensures
        r is Some <==> spec_title_for(page@) is Some,
        r matches Some(w) ==> window_title_spec(page@) == Some(w.title@)
            && w.url@ == app_page_url_spec(settings.api.port as nat, settings.api.token@, page@),
{
    match page_title(page) {
        Some(t) => {
            let mut title = String::from_str(t);
            title.append(" | System Bridge");
            let url = app_page_url(settings, page);
            Some(WindowRequest { title, url })
        },
        None => None,
    }
}

} // verus!
