//! Show an error message.

use crate::ctl::instance::Instance;
use crate::ctl::Color;
use crate::error::HyprError;
use crate::shared::{CommandContent, CommandContentView, CommandFlag};
use crate::transport::{exchange_with, exchange_with_default, opened_view, Connecting};
use vstd::prelude::*;

verus! {

/// The command that shows the error message `msg` in `color`.
pub open spec fn request(color: Color, msg: Seq<char>) -> CommandContentView {
    CommandContentView {
        flag: CommandFlag::Empty,
        data: "seterror "@ + color.text() + " "@ + msg,
    }
}

/// The command that shows the error message `msg` in `color`.
pub fn command(color: Color, msg: &str) -> (r: CommandContent)
    ensures
        r@ == request(color, msg@),
{
    let mut data = String::from_str("seterror ");
    data.append(color.to_string().as_str());
    data.append(" ");
    data.append(msg);
    CommandContent::new(CommandFlag::Empty, data)
}

/// Show an error message on the default instance.
pub fn call(default: Result<&Instance, HyprError>, color: Color, msg: String) -> (r: Result<
    Connecting,
    HyprError,
>)
    ensures
        opened_view(r) == exchange_with_default(default, request(color, msg@)),
{
    match default {
        Ok(instance) => Ok(instance_call(instance, color, msg)),
        Err(error) => Err(error),
    }
}

/// Show an error message on `instance`.
pub fn instance_call(instance: &Instance, color: Color, msg: String) -> (r: Connecting)
    ensures
        r@ == exchange_with(instance@, request(color, msg@)),
{
    instance.write_to_socket(&command(color, msg.as_str()))
}

} // verus!
