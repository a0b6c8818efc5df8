//! Create and remove virtual outputs.

use crate::ctl::instance::Instance;
use crate::error::HyprError;
use crate::shared::{CommandContent, CommandContentView, CommandFlag};
use crate::transport::{exchange_with, exchange_with_default, opened_view, Connecting};
use vstd::prelude::*;

verus! {

/// The backends that an output can be created on.
#[derive(Debug, Clone, Copy, PartialEq, Eq)]
pub enum OutputBackends {
    /// The Wayland backend.
    Wayland,
    /// The X11 backend.
    X11,
    /// The headless backend.
    Headless,
    /// The backend that the compositor picks.
    Auto,
}

impl OutputBackends {
    /// The name that is sent for the backend.
    pub open spec fn text(self) -> Seq<char> {
        match self {
            OutputBackends::Wayland => "wayland"@,
            OutputBackends::X11 => "x11"@,
            OutputBackends::Headless => "headless"@,
            OutputBackends::Auto => "auto"@,
        }
    }

    /// The name that is sent for the backend.
    pub fn as_str(&self) -> (r: &'static str)
        ensures
            r@ == self.text(),
    {
        match self {
            OutputBackends::Wayland => "wayland",
            OutputBackends::X11 => "x11",
            OutputBackends::Headless => "headless",
            OutputBackends::Auto => "auto",
        }
    }

    /// The name that is sent for the backend.
    pub fn to_string(&self) -> (r: String)
        ensures
            r@ == self.text(),
    {
        String::from_str(self.as_str())
    }
}

/// The name that is sent for an output that may have none: the name, or
/// nothing.
pub open spec fn name_or_empty(name: Option<&str>) -> Seq<char> {
    match name {
        Some(name) => name@,
        None => Seq::empty(),
    }
}

/// The command that creates an output.
pub open spec fn create_request(backend: OutputBackends, name: Seq<char>) -> CommandContentView {
    CommandContentView {
        flag: CommandFlag::Empty,
        data: "output create "@ + backend.text() + " "@ + name,
    }
}

/// The command that removes the output `name`.
pub open spec fn remove_request(name: Seq<char>) -> CommandContentView {
    CommandContentView { flag: CommandFlag::Empty, data: "output remove "@ + name }
}

/// The command that creates an output.
pub fn create_command(backend: OutputBackends, name: Option<&str>) -> (r: CommandContent)
    ensures
        r@ == create_request(backend, name_or_empty(name)),
{
    let mut data = String::from_str("output create ");
    data.append(backend.as_str());
    data.append(" ");
    if let Some(name) = name {
        data.append(name);
    }
    CommandContent::new(CommandFlag::Empty, data)
}

/// The command that removes the output `name`.
pub fn remove_command(name: &str) -> (r: CommandContent)
    ensures
        r@ == remove_request(name@),
{
    let mut data = String::from_str("output remove ");
    data.append(name);
    CommandContent::new(CommandFlag::Empty, data)
}

/// Create an output on the default instance.
pub fn create(default: Result<&Instance, HyprError>, backend: OutputBackends, name: Option<&str>) -> (r:
    Result<Connecting, HyprError>)
    ensures
        opened_view(r) == exchange_with_default(
            default,
            create_request(backend, name_or_empty(name)),
        ),
{
    match default {
        Ok(instance) => Ok(instance_create(instance, backend, name)),
        Err(error) => Err(error),
    }
}

/// Remove the output `name` from the default instance.
pub fn remove(default: Result<&Instance, HyprError>, name: &str) -> (r: Result<
    Connecting,
    HyprError,
>)
    ensures
        opened_view(r) == exchange_with_default(default, remove_request(name@)),
{
    match default {
        Ok(instance) => Ok(instance_remove(instance, name)),
        Err(error) => Err(error),
    }
}

/// Create an output on `instance`.
pub fn instance_create(instance: &Instance, backend: OutputBackends, name: Option<&str>) -> (r:
    Connecting)
    ensures
        r@ == exchange_with(instance@, create_request(backend, name_or_empty(name))),
{
    instance.write_to_socket(&create_command(backend, name))
}

/// Remove the output `name` from `instance`.
pub fn instance_remove(instance: &Instance, name: &str) -> (r: Connecting)
    ensures
        r@ == exchange_with(instance@, remove_request(name@)),
{
    instance.write_to_socket(&remove_command(name))
}

} // verus!
