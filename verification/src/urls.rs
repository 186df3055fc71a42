//! Every URL the shell requests or navigates to, built against exact
//! character-sequence specifications.

use vstd::prelude::*;

use crate::settings::Settings;
use crate::text::dec_rep;
use crate::text::decimal_string;

verus! {

/// The backend's origin: loopback HTTP on the configured port.
pub open spec fn base_url_spec(port: nat) -> Seq<char> {
    "http://127.0.0.1:"@ + dec_rep(port)
}

/// The liveness probe target: the backend's root endpoint.
pub open spec fn root_url_spec(port: nat) -> Seq<char> {
    base_url_spec(port) + "/"@
}

/// The readiness probe target: the authenticated API endpoint.
pub open spec fn api_url_spec(port: nat, token: Seq<char>) -> Seq<char> {
    base_url_spec(port) + "/api?token="@ + token
}

/// The address of one of the backend's UI pages, carrying the port and
/// the credential as query-string parameters.
pub open spec fn app_page_url_spec(port: nat, token: Seq<char>, page: Seq<char>) -> Seq<char> {
    base_url_spec(port) + "/app/"@ + page + ".html?apiPort="@ + dec_rep(port) + "&token="@ + token
}

/// Builds the backend's origin URL.
pub fn base_url(settings: &Settings) -> (r: String)
    requires
        settings.wf(),
    ensures
        r@ == base_url_spec(settings.api.port as nat),
{
    let mut s = String::from_str("http://127.0.0.1:");
    let port = decimal_string(settings.api.port as u32);
    s.append(port.as_str());
    s
}

/// Builds the liveness probe URL.
pub fn root_url(settings: &Settings) -> (r: String)
    requires
        settings.wf(),
    ensures
        r@ == root_url_spec(settings.api.port as nat),
{
    let mut s = base_url(settings);
    s.append("/");
    s
}

/// Builds the authenticated readiness probe URL.
pub fn api_url(settings: &Settings) -> (r: String)
    requires
        settings.wf(),
    ensures
        r@ == api_url_spec(settings.api.port as nat, settings.api.token@),
{
    let mut s = base_url(settings);
    s.append("/api?token=");
    s.append(settings.api.token.as_str());
    s
}

/// Builds the URL of one of the backend's UI pages.
pub fn app_page_url(settings: &Settings, page: &str) -> (r: String)
    requires
        settings.wf(),
    ensures
        r@ == app_page_url_spec(settings.api.port as nat, settings.api.token@, page@),
{
    let mut s = base_url(settings);
    s.append("/app/");
    s.append(page);
    s.append(".html?apiPort=");
    let port = decimal_string(settings.api.port as u32);
    s.append(port.as_str());
    s.append("&token=");
    s.append(settings.api.token.as_str());
    s
}

} // verus!
