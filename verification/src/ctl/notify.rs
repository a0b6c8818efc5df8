//! Show a notification.

use crate::ctl::instance::Instance;
use crate::ctl::Color;
use crate::error::HyprError;
use crate::shared::{CommandContent, CommandContentView, CommandFlag};
use crate::text::{append_decimal, append_signed_decimal, decimal, signed_decimal};
use crate::transport::{exchange_with, exchange_with_default, opened_view, Connecting};
use vstd::prelude::*;

verus! {

/// The icon of a notification.
#[derive(Debug, Clone, Copy, PartialEq, Eq)]
pub enum Icon {
    NoIcon,
    Warning,
    Info,
    Hint,
    Error,
    Confused,
    Okay,
}

impl Icon {
    /// The number that is sent for the icon.
    pub open spec fn spec_code(self) -> i8 {
        match self {
            Icon::NoIcon => -1i8,
            Icon::Warning => 0i8,
            Icon::Info => 1i8,
            Icon::Hint => 2i8,
            Icon::Error => 3i8,
            Icon::Confused => 4i8,
            Icon::Okay => 5i8,
        }
    }

    /// The number that is sent for the icon.
    #[verifier::when_used_as_spec(spec_code)]
    pub fn code(self) -> (r: i8)
        ensures
            r == self.spec_code(),
    {
        match self {
            Icon::NoIcon => -1,
            Icon::Warning => 0,
            Icon::Info => 1,
            Icon::Hint => 2,
            Icon::Error => 3,
            Icon::Confused => 4,
            Icon::Okay => 5,
        }
    }
}

/// The command that shows the notification `msg` with `icon`, in `color`,
/// for `time_ms` milliseconds.
pub open spec fn request(icon: Icon, time_ms: u128, color: Color, msg: Seq<char>) -> CommandContentView {
    CommandContentView {
        flag: CommandFlag::Empty,
        data: "notify "@ + signed_decimal(icon.code() as int) + " "@ + decimal(time_ms as nat)
            + " "@ + color.text() + " "@ + msg,
    }
}

/// The command that shows the notification `msg` with `icon`, in `color`,
/// for `time_ms` milliseconds.
pub fn command(icon: Icon, time_ms: u128, color: Color, msg: &str) -> (r: CommandContent)
    ensures
        r@ == request(icon, time_ms, color, msg@),
{
    let mut data = String::from_str("notify ");
    append_signed_decimal(&mut data, icon.code() as i64);
    data.append(" ");
    append_decimal(&mut data, time_ms);
    data.append(" ");
    data.append(color.to_string().as_str());
    data.append(" ");
    data.append(msg);
    CommandContent::new(CommandFlag::Empty, data)
}

/// Show a notification on the default instance.
pub fn call(
    default: Result<&Instance, HyprError>,
    icon: Icon,
    time_ms: u128,
    color: Color,
    msg: String,
) -> (r: Result<Connecting, HyprError>)
    ensures
        opened_view(r) == exchange_with_default(default, request(icon, time_ms, color, msg@)),
{
    match default {
        Ok(instance) => Ok(instance_call(instance, icon, time_ms, color, msg)),
        Err(error) => Err(error),
    }
}

/// Show a notification on `instance`.
pub fn instance_call(instance: &Instance, icon: Icon, time_ms: u128, color: Color, msg: String) -> (r:
    Connecting)
    ensures
        r@ == exchange_with(instance@, request(icon, time_ms, color, msg@)),
{
    instance.write_to_socket(&command(icon, time_ms, color, msg.as_str()))
}

} // verus!
