//! What the commands share: the command envelope and its form on the wire.

use vstd::prelude::*;
use vstd::utf8::encode_utf8;

verus! {

/// The shape of the response that a command expects.
#[derive(Debug, Clone, Copy, PartialEq, Eq, Structural)]
pub enum CommandFlag {
    /// The response is a JSON document.
    JSON,
    /// The response is a status text.
    Empty,
}

/// A command: the shape of the response that it expects, and its text.
#[derive(Debug, PartialEq, Eq)]
pub struct CommandContent {
    pub flag: CommandFlag,
    pub data: String,
}

/// The mathematical value of a [`CommandContent`].
pub struct CommandContentView {
    pub flag: CommandFlag,
    pub data: Seq<char>,
}

impl View for CommandContent {
    type V = CommandContentView;

    open spec fn view(&self) -> CommandContentView {
        CommandContentView { flag: self.flag, data: self.data@ }
    }
}

/// The text that is sent for a command: the flags, a slash, and the command's
/// own text. A command that expects JSON has the flag `j`, another has none.
pub open spec fn wire_text(content: CommandContentView) -> Seq<char> {
    match content.flag {
        CommandFlag::JSON => seq!['j', '/'] + content.data,
        CommandFlag::Empty => seq!['/'] + content.data,
    }
}

/// The bytes that are sent for a command: its wire text in UTF-8.
pub open spec fn wire_bytes(content: CommandContentView) -> Seq<u8> {
    encode_utf8(wire_text(content))
}

impl CommandContent {
    /// A command with the given flag and text.
    pub fn new(flag: CommandFlag, data: String) -> (r: Self)
        ensures
            r@ == (CommandContentView { flag, data: data@ }),
    {
        CommandContent { flag, data }
    }

    /// The text that is sent for the command.
    pub fn to_string(&self) -> (r: String)
        ensures
            r@ == wire_text(self@),
    {
        proof {
            reveal_strlit("j/");
            reveal_strlit("/");
        }
        let mut text = match self.flag {
            CommandFlag::JSON => String::from_str("j/"),
            CommandFlag::Empty => String::from_str("/"),
        };
        text.append(self.data.as_str());
        text
    }

    /// The bytes that are sent for the command.
    pub fn as_bytes(&self) -> (r: Vec<u8>)
        ensures
            r@ == wire_bytes(self@),
    {
        self.to_string().as_str().as_bytes_vec()
    }
}

/// The runtime directory, given the values of the environment variables
/// `XDG_RUNTIME_DIR` and `UID` where they are set: `hypr` under the first,
/// or else `hypr` under `/run/user/` and the second.
pub open spec fn hypr_path_of(xdg_runtime_dir: Option<&str>, uid: Option<&str>) -> Option<
    Seq<char>,
> {
    match (xdg_runtime_dir, uid) {
        (Some(dir), _) => Some(dir@ + "/hypr"@),
        (None, Some(uid)) => Some("/run/user/"@ + uid@ + "/hypr"@),
        (None, None) => None,
    }
}

/// The runtime directory, under which each instance has its own directory,
/// or the message that says why there is none: neither variable is set.
pub fn get_hypr_path(xdg_runtime_dir: Option<&str>, uid: Option<&str>) -> (r: Result<
    String,
    String,
>)
    ensures
        match hypr_path_of(xdg_runtime_dir, uid) {
            Some(path) => r is Ok && r.unwrap()@ == path,
            None => r is Err && r.unwrap_err()@ == "Could not find XDG_RUNTIME_DIR or UID"@,
        },
{
    match xdg_runtime_dir {
        Some(dir) => {
            let mut path = String::from_str(dir);
            path.append("/hypr");
            Ok(path)
        },
        None => match uid {
            Some(uid) => {
                let mut path = String::from_str("/run/user/");
                path.append(uid);
                path.append("/hypr");
                Ok(path)
            },
            None => Err(String::from_str("Could not find XDG_RUNTIME_DIR or UID")),
        },
    }
}

} // verus!
