//! The commands of the control socket, one module for each. A command opens
//! an exchange with an instance; what the exchange returns in the end is
//! judged by the module that opened it.

use crate::error::HyprError;
use crate::text::{append_hex_pair, hex_pair};
use vstd::prelude::*;

pub mod dismissnotify;
pub mod instance;
pub mod kill;
pub mod notify;
pub mod output;
pub mod plugin;
pub mod reload;
pub mod set_cursor;
pub mod set_error;
pub mod set_prop;
pub mod switch_xkb_layout;

verus! {

/// An 8-bit color with an alpha channel.
#[derive(Debug, Clone, Copy, PartialEq, Eq)]
pub struct Color(pub u8, pub u8, pub u8, pub u8);

impl Color {
    /// The color with the given red, green, blue and alpha.
    pub fn new(red: u8, green: u8, blue: u8, alpha: u8) -> (r: Self)
        ensures
            r == Color(red, green, blue, alpha),
    {
        Color(red, green, blue, alpha)
    }

    /// The text that is sent for the color: `rgba(`, each of the four
    /// channels as two hexadecimal digits, and `)`.
    pub open spec fn text(self) -> Seq<char> {
        "rgba("@ + hex_pair(self.0) + hex_pair(self.1) + hex_pair(self.2) + hex_pair(self.3)
            + ")"@
    }

    /// The text that is sent for the color.
    pub fn to_string(&self) -> (r: String)
        ensures
            r@ == self.text(),
    {
        let mut out = String::from_str("rgba(");
        append_hex_pair(&mut out, self.0);
        append_hex_pair(&mut out, self.1);
        append_hex_pair(&mut out, self.2);
        append_hex_pair(&mut out, self.3);
        out.append(")");
        out
    }
}

/// What a command that expects no more than an acknowledgement makes of the
/// end of its exchange: the response text is dropped, an error is kept.
pub fn acknowledged(reply: Result<String, HyprError>) -> (r: Result<(), HyprError>)
    ensures
        match reply {
            Ok(_) => r is Ok,
            Err(error) => r is Err && r.unwrap_err()@ == error@,
        },
{
    match reply {
        Ok(_) => Ok(()),
        Err(error) => Err(error),
    }
}

} // verus!
