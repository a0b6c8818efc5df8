//! Reload the configuration.

use crate::ctl::instance::Instance;
use crate::error::HyprError;
use crate::shared::{CommandContent, CommandContentView, CommandFlag};
use crate::transport::{exchange_with, exchange_with_default, opened_view, Connecting};
use vstd::prelude::*;

verus! {

/// The command that reloads the configuration.
pub open spec fn request() -> CommandContentView {
    CommandContentView { flag: CommandFlag::Empty, data: "reload"@ }
}

/// The command that reloads the configuration.
pub fn command() -> (r: CommandContent)
    ensures
        r@ == request(),
{
    CommandContent::new(CommandFlag::Empty, String::from_str("reload"))
}

/// Reload the configuration of the default instance.
pub fn call(default: Result<&Instance, HyprError>) -> (r: Result<Connecting, HyprError>)
    ensures
        opened_view(r) == exchange_with_default(default, request()),
{
    match default {
        Ok(instance) => Ok(instance_call(instance)),
        Err(error) => Err(error),
    }
}

/// Reload the configuration of `instance`.
pub fn instance_call(instance: &Instance) -> (r: Connecting)
    ensures
        r@ == exchange_with(instance@, request()),
{
    instance.write_to_socket(&command())
}

} // verus!
