//! Talk to the plugin system.

use crate::ctl::instance::Instance;
use crate::error::{HyprError, HyprErrorView};
use crate::shared::{CommandContent, CommandContentView, CommandFlag};
use crate::text::{chars_of, contains, is_contained};
use crate::transport::{exchange_with, exchange_with_default, opened_view, Connecting};
use vstd::prelude::*;

verus! {

/// A loaded plugin.
#[derive(Debug, PartialEq)]
pub struct Plugin {
    /// The name of the plugin.
    pub name: String,
    /// The author of the plugin.
    pub author: String,
    /// The handle of the plugin.
    pub handle: String,
    /// The version of the plugin.
    pub version: String,
    /// The description of the plugin.
    pub description: String,
}

/// The mathematical value of a [`Plugin`].
pub struct PluginView {
    pub name: Seq<char>,
    pub author: Seq<char>,
    pub handle: Seq<char>,
    pub version: Seq<char>,
    pub description: Seq<char>,
}

impl View for Plugin {
    type V = PluginView;

    open spec fn view(&self) -> PluginView {
        PluginView {
            name: self.name@,
            author: self.author@,
            handle: self.handle@,
            version: self.version@,
            description: self.description@,
        }
    }
}

impl Clone for Plugin {
    fn clone(&self) -> (r: Self)
        ensures
            r@ == self@,
    {
        Plugin {
            name: self.name.clone(),
            author: self.author.clone(),
            handle: self.handle.clone(),
            version: self.version.clone(),
            description: self.description.clone(),
        }
    }
}

/// The command that lists the loaded plugins. Its response is JSON.
pub open spec fn list_request() -> CommandContentView {
    CommandContentView { flag: CommandFlag::JSON, data: "plugin list"@ }
}

/// The command that loads the plugin at `path`.
pub open spec fn load_request(path: Seq<char>) -> CommandContentView {
    CommandContentView { flag: CommandFlag::Empty, data: "plugin load "@ + path }
}

/// The command that unloads the plugin at `path`.
pub open spec fn unload_request(path: Seq<char>) -> CommandContentView {
    CommandContentView { flag: CommandFlag::Empty, data: "plugin unload "@ + path }
}

/// What the end of an exchange means for a command whose response reports a
/// failure by holding `complaint`: such a response becomes an internal error
/// that carries it, any other response is a success, and an error stays.
pub open spec fn judged(
    reply: Result<Seq<char>, HyprErrorView>,
    complaint: Seq<char>,
) -> Result<(), HyprErrorView> {
    match reply {
        Ok(text) => if contains(text, complaint) {
            Err(HyprErrorView::Internal(text))
        } else {
            Ok(())
        },
        Err(error) => Err(error),
    }
}

/// The mathematical value of the end of an exchange.
pub open spec fn reply_view(reply: Result<String, HyprError>) -> Result<Seq<char>, HyprErrorView> {
    match reply {
        Ok(text) => Ok(text@),
        Err(error) => Err(error@),
    }
}

/// The mathematical value of what a command makes of the end of its
/// exchange.
pub open spec fn verdict_view(verdict: Result<(), HyprError>) -> Result<(), HyprErrorView> {
    match verdict {
        Ok(_) => Ok(()),
        Err(error) => Err(error@),
    }
}

/// Judges the end of an exchange whose response reports a failure by
/// holding `complaint`.
pub fn judge(reply: Result<String, HyprError>, complaint: &str) -> (r: Result<(), HyprError>)
    ensures
        verdict_view(r) == judged(reply_view(reply), complaint@),
{
    match reply {
        Ok(text) => {
            if is_contained(&chars_of(text.as_str()), &chars_of(complaint)) {
                Err(HyprError::Internal(text))
            } else {
                Ok(())
            }
        },
        Err(error) => Err(error),
    }
}

/// The command that lists the loaded plugins.
pub fn list_command() -> (r: CommandContent)
    ensures
        r@ == list_request(),
{
    CommandContent::new(CommandFlag::JSON, String::from_str("plugin list"))
}

/// The command that loads the plugin at `path`.
pub fn load_command(path: &str) -> (r: CommandContent)
    ensures
        r@ == load_request(path@),
{
    let mut data = String::from_str("plugin load ");
    data.append(path);
    CommandContent::new(CommandFlag::Empty, data)
}

/// The command that unloads the plugin at `path`.
pub fn unload_command(path: &str) -> (r: CommandContent)
    ensures
        r@ == unload_request(path@),
{
    let mut data = String::from_str("plugin unload ");
    data.append(path);
    CommandContent::new(CommandFlag::Empty, data)
}

/// List the plugins of the default instance.
pub fn list(default: Result<&Instance, HyprError>) -> (r: Result<Connecting, HyprError>)
    ensures
        opened_view(r) == exchange_with_default(default, list_request()),
{
    match default {
        Ok(instance) => Ok(instance_list(instance)),
        Err(error) => Err(error),
    }
}

/// List the plugins of `instance`.
pub fn instance_list(instance: &Instance) -> (r: Connecting)
    ensures
        r@ == exchange_with(instance@, list_request()),
{
    instance.write_to_socket(&list_command())
}

/// Load the plugin at the absolute path `path` into the default instance.
pub fn load(default: Result<&Instance, HyprError>, path: &str) -> (r: Result<
    Connecting,
    HyprError,
>)
    ensures
        opened_view(r) == exchange_with_default(default, load_request(path@)),
{
    match default {
        Ok(instance) => Ok(instance_load(instance, path)),
        Err(error) => Err(error),
    }
}

/// Load the plugin at the absolute path `path` into `instance`.
pub fn instance_load(instance: &Instance, path: &str) -> (r: Connecting)
    ensures
        r@ == exchange_with(instance@, load_request(path@)),
{
    instance.write_to_socket(&load_command(path))
}

/// What loading a plugin makes of the end of its exchange: a response that
/// says that the plugin could not be loaded is an internal error.
pub fn loaded(reply: Result<String, HyprError>) -> (r: Result<(), HyprError>)
    ensures
        verdict_view(r) == judged(reply_view(reply), "could not be loaded"@),
{
    judge(reply, "could not be loaded")
}

/// Unload the plugin at the absolute path `path` from the default instance.
pub fn unload(default: Result<&Instance, HyprError>, path: &str) -> (r: Result<
    Connecting,
    HyprError,
>)
    ensures
        opened_view(r) == exchange_with_default(default, unload_request(path@)),
{
    match default {
        Ok(instance) => Ok(instance_unload(instance, path)),
        Err(error) => Err(error),
    }
}

/// Unload the plugin at the absolute path `path` from `instance`.
pub fn instance_unload(instance: &Instance, path: &str) -> (r: Connecting)
    ensures
        r@ == exchange_with(instance@, unload_request(path@)),
{
    instance.write_to_socket(&unload_command(path))
}

/// What unloading a plugin makes of the end of its exchange: a response
/// that says that the plugin was not loaded is an internal error.
pub fn unloaded(reply: Result<String, HyprError>) -> (r: Result<(), HyprError>)
    ensures
        verdict_view(r) == judged(reply_view(reply), "plugin not loaded"@),
{
    judge(reply, "plugin not loaded")
}

} // verus!
