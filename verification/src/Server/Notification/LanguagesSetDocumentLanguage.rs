//! `languages.setDocumentLanguage`: an extension changed a document's language; the editor swaps the language mode. Relayed to the renderer as `sky://languages/setDocumentLanguage`.

use vstd::prelude::*;

use crate::Host::{HostAction, actions_view};
use crate::Json::Json;
use crate::Server::Notification::Support::RelayToSky;
use crate::Server::Notification::Support::RelayToSky::relay;

verus! {

/// Handles `languages.setDocumentLanguage` by emitting the parameter unchanged on `sky://languages/setDocumentLanguage`.
pub fn LanguagesSetDocumentLanguage(Parameter: &Json) -> (r: Vec<HostAction>)
    ensures
        actions_view(r@) == relay("sky://languages/setDocumentLanguage"@, Parameter@),
{
    RelayToSky::Fn("sky://languages/setDocumentLanguage", Parameter)
}

} // verus!
