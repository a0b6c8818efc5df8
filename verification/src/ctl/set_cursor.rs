//! Set the cursor theme.

use crate::ctl::instance::Instance;
use crate::error::HyprError;
use crate::shared::{CommandContent, CommandContentView, CommandFlag};
use crate::text::{append_decimal, decimal};
use crate::transport::{exchange_with, exchange_with_default, opened_view, Connecting};
use vstd::prelude::*;

verus! {

/// The command that sets the cursor theme and size.
pub open spec fn request(theme: Seq<char>, size: u16) -> CommandContentView {
    CommandContentView {
        flag: CommandFlag::Empty,
        data: "setcursor "@ + theme + " "@ + decimal(size as nat),
    }
}

/// The command that sets the cursor theme and size.
pub fn command(theme: &str, size: u16) -> (r: CommandContent)
    ensures
        r@ == request(theme@, size),
{
    let mut data = String::from_str("setcursor ");
    data.append(theme);
    data.append(" ");
    append_decimal(&mut data, size as u128);
    CommandContent::new(CommandFlag::Empty, data)
}

/// Set the cursor theme of the default instance.
pub fn call(default: Result<&Instance, HyprError>, theme: &str, size: u16) -> (r: Result<
    Connecting,
    HyprError,
>)
    ensures
        opened_view(r) == exchange_with_default(default, request(theme@, size)),
{
    match default {
        Ok(instance) => Ok(instance_call(instance, theme, size)),
        Err(error) => Err(error),
    }
}

/// Set the cursor theme of `instance`.
pub fn instance_call(instance: &Instance, theme: &str, size: u16) -> (r: Connecting)
    ensures
        r@ == exchange_with(instance@, request(theme@, size)),
{
    instance.write_to_socket(&command(theme, size))
}

} // verus!
