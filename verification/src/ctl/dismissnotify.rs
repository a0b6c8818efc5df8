//! Dismiss notifications.

use crate::ctl::instance::Instance;
use crate::error::HyprError;
use crate::shared::{CommandContent, CommandContentView, CommandFlag};
use crate::text::{append_decimal, decimal};
use crate::transport::{exchange_with, exchange_with_default, opened_view, Connecting};
use vstd::prelude::*;

verus! {

/// The text that is sent for the number of notifications to dismiss: the
/// number, or `-1` for all of them.
pub open spec fn amount_text(amount: Option<u8>) -> Seq<char> {
    match amount {
        Some(amount) => decimal(amount as nat),
        None => "-1"@,
    }
}

/// The command that dismisses `amount` notifications, or all of them.
pub open spec fn request(amount: Option<u8>) -> CommandContentView {
    CommandContentView {
        flag: CommandFlag::Empty,
        data: "dismissnotify "@ + amount_text(amount),
    }
}

/// The command that dismisses `amount` notifications, or all of them where
/// `amount` is `None`.
pub fn command(amount: Option<u8>) -> (r: CommandContent)
    ensures
        r@ == request(amount),
{
    let mut data = String::from_str("dismissnotify ");
    match amount {
        Some(amount) => {
            append_decimal(&mut data, amount as u128);
        },
        None => {
            data.append("-1");
        },
    }
    CommandContent::new(CommandFlag::Empty, data)
}

/// Dismiss notifications of the default instance: `amount` of them, or all
/// where `amount` is `None`.
pub fn call(default: Result<&Instance, HyprError>, amount: Option<u8>) -> (r: Result<
    Connecting,
    HyprError,
>)
    ensures
        opened_view(r) == exchange_with_default(default, request(amount)),
{
    match default {
        Ok(instance) => Ok(instance_call(instance, amount)),
        Err(error) => Err(error),
    }
}

/// Dismiss notifications of `instance`: `amount` of them, or all where
/// `amount` is `None`.
pub fn instance_call(instance: &Instance, amount: Option<u8>) -> (r: Connecting)
    ensures
        r@ == exchange_with(instance@, request(amount)),
{
    instance.write_to_socket(&command(amount))
}

} // verus!
