//! What the HTTP surface decides before and after it turns to the store.

use crate::config::{
    applied_template, McpSettings, RecommendedServer, SettingsView, TemplateView,
};
use crate::error::BackendError;
use vstd::prelude::*;
use vstd::string::*;

verus! {

/// The master after a template has been imported: the template applied
/// with the flag that was asked for, or with its own default where none was.
pub open spec fn imported(m: SettingsView, t: TemplateView, enabled: Option<bool>) -> SettingsView {
    applied_template(
        m,
        t,
        match enabled {
            Some(flag) => flag,
            None => t.default_enabled,
        },
    )
}

/// What is reported as unknown for a template id.
pub open spec fn unknown_template(id: Seq<char>) -> Seq<char> {
    "recommended server '"@ + id + "'"@
}

/// Hands on what the catalog holds under a template id, or reports the
/// template as not found where it holds nothing.
pub fn require_recommended_server(found: Option<RecommendedServer>, server_id: &String) -> (r:
    Result<RecommendedServer, BackendError>)
    ensures
        match found {
            Some(t) => r == Ok::<RecommendedServer, BackendError>(t),
            None => r is Err && r->Err_0 is NotFound && r->Err_0->NotFound_0@ == unknown_template(
                server_id@,
            ),
        },
{
    match found {
        Some(server) => Ok(server),
        None => {
            let mut what = "recommended server '".to_string();
            what.append(server_id.as_str());
            what.append("'");
            Err(BackendError::NotFound(what))
        },
    }
}

/// Imports a template into the master: applies it with the flag that was
/// asked for, or with the template's own default where none was.
pub fn import_recommended_server(
    master: &mut McpSettings,
    server: &RecommendedServer,
    enabled: Option<bool>,
)
    ensures
        final(master)@ == imported(old(master)@, server@, enabled),
{
    let flag = match enabled {
        Some(flag) => flag,
        None => server.default_enabled,
    };
    master.apply_recommended_server(server, flag);
}

} // verus!
