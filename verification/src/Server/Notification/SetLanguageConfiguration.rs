//! `set_language_configuration`: brackets, indentation rules, word pattern and comments of a language. Relayed to the renderer as `sky://language/configure`.

use vstd::prelude::*;

use crate::Host::{HostAction, actions_view};
use crate::Json::Json;
use crate::Server::Notification::Support::RelayToSky;
use crate::Server::Notification::Support::RelayToSky::relay;

verus! {

/// Handles `set_language_configuration` by emitting the parameter unchanged on `sky://language/configure`.
pub fn SetLanguageConfiguration(Parameter: &Json) -> (r: Vec<HostAction>)
    ensures
        actions_view(r@) == relay("sky://language/configure"@, Parameter@),
{
    RelayToSky::Fn("sky://language/configure", Parameter)
}

} // verus!
