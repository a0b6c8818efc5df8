//! Set a property of a window.

use crate::ctl::instance::Instance;
use crate::ctl::Color;
use crate::error::HyprError;
use crate::shared::{CommandContent, CommandContentView, CommandFlag};
use crate::text::{append_signed_decimal, signed_decimal};
use crate::transport::{exchange_with, exchange_with_default, opened_view, Connecting};
use vstd::prelude::*;

verus! {

/// The word that is sent for a lock: `lock` where there is one, nothing
/// where there is none.
pub open spec fn lock_text(locked: bool) -> Seq<char> {
    if locked {
        "lock"@
    } else {
        ""@
    }
}

/// The digit that is sent for a switch: `1` for on, `0` for off.
pub open spec fn switch_text(on: bool) -> Seq<char> {
    if on {
        "1"@
    } else {
        "0"@
    }
}

/// The word that is sent for a lock.
pub fn l(b: bool) -> (r: &'static str)
    ensures
        r@ == lock_text(b),
{
    if b {
        "lock"
    } else {
        ""
    }
}

/// A property of a window, with the value to give it. The second field of a
/// variant says whether the property is locked.
#[derive(Debug, PartialEq)]
pub enum PropType {
    /// The animation style.
    AnimationStyle(String),
    /// The rounding of the corners.
    Rounding(i64, bool),
    /// Force no blur.
    ForceNoBlur(bool, bool),
    /// Force opaque.
    ForceOpaque(bool, bool),
    /// Force opaque, overridden.
    ForceOpaqueOverriden(bool, bool),
    /// Force the window to allow input.
    ForceAllowsInput(bool, bool),
    /// Force no animations.
    ForceNoAnims(bool, bool),
    /// Force no border.
    ForceNoBorder(bool, bool),
    /// Force no shadow.
    ForceNoShadow(bool, bool),
    /// Compatibility with window dancing.
    WindowDanceCompat(bool, bool),
    /// Allow the window to pass its maximal size.
    NoMaxSize(bool, bool),
    /// Dim everything around the window.
    DimAround(bool, bool),
    /// Make the next opacity override instead of multiply.
    AlphaOverride(bool, bool),
    /// The opacity, as the text that is sent for the number.
    Alpha(String, bool),
    /// Make the next opacity of the inactive window override instead of
    /// multiply.
    AlphaInactiveOverride(bool, bool),
    /// The opacity of the inactive window, as the text that is sent for the
    /// number.
    AlphaInactive(String, bool),
    /// The color of the active border.
    ActiveBorderColor(Color, bool),
    /// The color of the inactive border.
    InactiveBorderColor(Color, bool),
}

/// The text that is sent for a property with a value and a lock: the
/// property's name, the value and the lock's word, with a space between
/// each two.
pub open spec fn entry_text(name: Seq<char>, value: Seq<char>, locked: bool) -> Seq<char> {
    name + " "@ + value + " "@ + lock_text(locked)
}

/// The text that is sent for a property with a value and a lock.
pub fn entry(name: &str, value: &str, locked: bool) -> (r: String)
    ensures
        r@ == entry_text(name@, value@, locked),
{
    let mut out = String::from_str(name);
    out.append(" ");
    out.append(value);
    out.append(" ");
    out.append(l(locked));
    out
}

/// The digit that is sent for a switch.
pub fn switch(on: bool) -> (r: &'static str)
    ensures
        r@ == switch_text(on),
{
    if on {
        "1"
    } else {
        "0"
    }
}

impl PropType {
    /// The text that is sent for the property.
    pub open spec fn text(&self) -> Seq<char> {
        match self {
            PropType::AnimationStyle(style) => "animationstyle "@ + style@,
            PropType::Rounding(radius, locked) => entry_text(
                "rounding"@,
                signed_decimal(*radius as int),
                *locked,
            ),
            PropType::ForceNoBlur(on, locked) => entry_text(
                "forcenoblur"@,
                switch_text(*on),
                *locked,
            ),
            PropType::ForceOpaque(on, locked) => entry_text(
                "forceopaque"@,
                switch_text(*on),
                *locked,
            ),
            PropType::ForceOpaqueOverriden(on, locked) => entry_text(
                "forceopaqueoverriden"@,
                switch_text(*on),
                *locked,
            ),
            PropType::ForceAllowsInput(on, locked) => entry_text(
                "forceallowsinput"@,
                switch_text(*on),
                *locked,
            ),
            PropType::ForceNoAnims(on, locked) => entry_text(
                "forcenoanims"@,
                switch_text(*on),
                *locked,
            ),
            PropType::ForceNoBorder(on, locked) => entry_text(
                "forcenoborder"@,
                switch_text(*on),
                *locked,
            ),
            PropType::ForceNoShadow(on, locked) => entry_text(
                "forcenoshadow"@,
                switch_text(*on),
                *locked,
            ),
            PropType::WindowDanceCompat(on, locked) => entry_text(
                "windowdancecompat"@,
                switch_text(*on),
                *locked,
            ),
            PropType::NoMaxSize(on, locked) => entry_text(
                "nomaxsize"@,
                switch_text(*on),
                *locked,
            ),
            PropType::DimAround(on, locked) => entry_text(
                "dimaround"@,
                switch_text(*on),
                *locked,
            ),
            PropType::AlphaOverride(on, locked) => entry_text(
                "alphaoverride"@,
                switch_text(*on),
                *locked,
            ),
            PropType::Alpha(opacity, locked) => entry_text("alpha"@, opacity@, *locked),
            PropType::AlphaInactiveOverride(on, locked) => entry_text(
                "alphainactiveoverride"@,
                switch_text(*on),
                *locked,
            ),
            PropType::AlphaInactive(opacity, locked) => entry_text(
                "alphainactive"@,
                opacity@,
                *locked,
            ),
            PropType::ActiveBorderColor(color, locked) => entry_text(
                "alphabordercolor"@,
                color.text(),
                *locked,
            ),
            PropType::InactiveBorderColor(color, locked) => entry_text(
                "inalphabordercolor"@,
                color.text(),
                *locked,
            ),
        }
    }

    /// The text that is sent for the property.
    pub fn to_string(&self) -> (r: String)
        ensures
            r@ == self.text(),
    {
        match self {
            PropType::AnimationStyle(style) => {
                let mut out = String::from_str("animationstyle ");
                out.append(style.as_str());
                out
            },
            PropType::Rounding(radius, locked) => {
                let mut value = String::new();
                append_signed_decimal(&mut value, *radius);
                entry("rounding", value.as_str(), *locked)
            },
            PropType::ForceNoBlur(on, locked) => entry("forcenoblur", switch(*on), *locked),
            PropType::ForceOpaque(on, locked) => entry("forceopaque", switch(*on), *locked),
            PropType::ForceOpaqueOverriden(on, locked) => entry(
                "forceopaqueoverriden",
                switch(*on),
                *locked,
            ),
            PropType::ForceAllowsInput(on, locked) => entry(
                "forceallowsinput",
                switch(*on),
                *locked,
            ),
            PropType::ForceNoAnims(on, locked) => entry("forcenoanims", switch(*on), *locked),
            PropType::ForceNoBorder(on, locked) => entry("forcenoborder", switch(*on), *locked),
            PropType::ForceNoShadow(on, locked) => entry("forcenoshadow", switch(*on), *locked),
            PropType::WindowDanceCompat(on, locked) => entry(
                "windowdancecompat",
                switch(*on),
                *locked,
            ),
            PropType::NoMaxSize(on, locked) => entry("nomaxsize", switch(*on), *locked),
            PropType::DimAround(on, locked) => entry("dimaround", switch(*on), *locked),
            PropType::AlphaOverride(on, locked) => entry("alphaoverride", switch(*on), *locked),
            PropType::Alpha(opacity, locked) => entry("alpha", opacity.as_str(), *locked),
            PropType::AlphaInactiveOverride(on, locked) => entry(
                "alphainactiveoverride",
                switch(*on),
                *locked,
            ),
            PropType::AlphaInactive(opacity, locked) => entry(
                "alphainactive",
                opacity.as_str(),
                *locked,
            ),
            PropType::ActiveBorderColor(color, locked) => entry(
                "alphabordercolor",
                color.to_string().as_str(),
                *locked,
            ),
            PropType::InactiveBorderColor(color, locked) => entry(
                "inalphabordercolor",
                color.to_string().as_str(),
                *locked,
            ),
        }
    }
}

/// The command that sets the property `prop` of the window `ident`.
pub open spec fn request(ident: Seq<char>, prop: Seq<char>, lock: bool) -> CommandContentView {
    CommandContentView {
        flag: CommandFlag::Empty,
        data: "setprop "@ + ident + " "@ + prop + " "@ + lock_text(lock),
    }
}

/// The command that sets the property `prop` of the window `ident`.
pub fn command(ident: &str, prop: &PropType, lock: bool) -> (r: CommandContent)
    ensures
        r@ == request(ident@, prop.text(), lock),
{
    let mut data = String::from_str("setprop ");
    data.append(ident);
    data.append(" ");
    data.append(prop.to_string().as_str());
    data.append(" ");
    data.append(l(lock));
    CommandContent::new(CommandFlag::Empty, data)
}

/// Set a property of a window of the default instance.
pub fn call(default: Result<&Instance, HyprError>, ident: String, prop: PropType, lock: bool) -> (r:
    Result<Connecting, HyprError>)
    ensures
        opened_view(r) == exchange_with_default(default, request(ident@, prop.text(), lock)),
{
    match default {
        Ok(instance) => Ok(instance_call(instance, ident, prop, lock)),
        Err(error) => Err(error),
    }
}

/// Set a property of a window of `instance`.
pub fn instance_call(instance: &Instance, ident: String, prop: PropType, lock: bool) -> (r:
    Connecting)
    ensures
        r@ == exchange_with(instance@, request(ident@, prop.text(), lock)),
{
    instance.write_to_socket(&command(ident.as_str(), &prop, lock))
}

} // verus!
