//! Switch the layout of a keyboard.

use crate::ctl::instance::Instance;
use crate::error::HyprError;
use crate::shared::{CommandContent, CommandContentView, CommandFlag};
use crate::text::{append_decimal, decimal};
use crate::transport::{exchange_with, exchange_with_default, opened_view, Connecting};
use vstd::prelude::*;

verus! {

/// Which layout to switch to.
#[derive(Debug, Clone, Copy, PartialEq, Eq)]
pub enum SwitchXKBLayoutCmdTypes {
    /// The next layout.
    Next,
    /// The previous layout.
    Previous,
    /// The layout with the given index.
    Id(u8),
}

impl SwitchXKBLayoutCmdTypes {
    /// The text that is sent for the choice.
    pub open spec fn text(self) -> Seq<char> {
        match self {
            SwitchXKBLayoutCmdTypes::Next => "next"@,
            SwitchXKBLayoutCmdTypes::Previous => "prev"@,
            SwitchXKBLayoutCmdTypes::Id(id) => decimal(id as nat),
        }
    }

    /// The text that is sent for the choice.
    pub fn to_string(&self) -> (r: String)
        ensures
            r@ == self.text(),
    {
        match self {
            SwitchXKBLayoutCmdTypes::Next => String::from_str("next"),
            SwitchXKBLayoutCmdTypes::Previous => String::from_str("prev"),
            SwitchXKBLayoutCmdTypes::Id(id) => {
                let mut out = String::new();
                append_decimal(&mut out, *id as u128);
                out
            },
        }
    }
}

/// The command that switches the layout of the keyboard `device`.
pub open spec fn request(device: Seq<char>, cmd: SwitchXKBLayoutCmdTypes) -> CommandContentView {
    CommandContentView {
        flag: CommandFlag::Empty,
        data: "switchxkblayout "@ + device + " "@ + cmd.text(),
    }
}

/// The command that switches the layout of the keyboard `device`.
pub fn command(device: &str, cmd: SwitchXKBLayoutCmdTypes) -> (r: CommandContent)
    ensures
        r@ == request(device@, cmd),
{
    let mut data = String::from_str("switchxkblayout ");
    data.append(device);
    data.append(" ");
    data.append(cmd.to_string().as_str());
    CommandContent::new(CommandFlag::Empty, data)
}

/// Switch the layout of a keyboard of the default instance.
pub fn call(default: Result<&Instance, HyprError>, device: &str, cmd: SwitchXKBLayoutCmdTypes) -> (r:
    Result<Connecting, HyprError>)
    ensures
        opened_view(r) == exchange_with_default(default, request(device@, cmd)),
{
    match default {
        Ok(instance) => Ok(instance_call(instance, device, cmd)),
        Err(error) => Err(error),
    }
}

/// Switch the layout of a keyboard of `instance`.
pub fn instance_call(instance: &Instance, device: &str, cmd: SwitchXKBLayoutCmdTypes) -> (r:
    Connecting)
    ensures
        r@ == exchange_with(instance@, request(device@, cmd)),
{
    instance.write_to_socket(&command(device, cmd))
}

} // verus!
