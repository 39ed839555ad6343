//! Commands of the interactive debug shell that drives a running source.
use crate::text::{parse_u32, same_text, split_words, u32_of, words};
use vstd::prelude::*;

verus! {

/// A command typed into the debug shell.
#[derive(Debug, Clone, PartialEq, Eq)]
pub enum DebugCommand {
    /// Print the list of commands.
    Help,
    /// List the live notifications.
    List,
    /// Close a notification.
    Close(u32),
    /// Invoke an action of a notification.
    Action { id: u32, key: String },
    /// Leave the shell.
    Quit,
}

/// `r` is an error whose message is `msg`.
pub open spec fn fails_with(r: Result<Option<DebugCommand>, String>, msg: Seq<char>) -> bool {
    r matches Err(e) && e@ == msg
}

/// What `parse_command` returns for a line whose words are `ws`.
pub open spec fn command_rel(ws: Seq<Seq<char>>, r: Result<Option<DebugCommand>, String>) -> bool {
    if ws.len() == 0 {
        r == Ok::<Option<DebugCommand>, String>(None)
    } else if ws[0] == "help"@ {
        r == Ok::<Option<DebugCommand>, String>(Some(DebugCommand::Help))
    } else if ws[0] == "list"@ {
        r == Ok::<Option<DebugCommand>, String>(Some(DebugCommand::List))
    } else if ws[0] == "quit"@ || ws[0] == "exit"@ {
        r == Ok::<Option<DebugCommand>, String>(Some(DebugCommand::Quit))
    } else if ws[0] == "close"@ {
        if ws.len() < 2 {
            fails_with(r, "usage: close <id>"@)
        } else {
            match u32_of(ws[1]) {
                Some(id) => r == Ok::<Option<DebugCommand>, String>(Some(DebugCommand::Close(id))),
                None => fails_with(r, "id must be a positive integer"@),
            }
        }
    } else if ws[0] == "action"@ {
        if ws.len() < 2 {
            fails_with(r, "usage: action <id> <action-key>"@)
        } else {
            match u32_of(ws[1]) {
                Some(id) => if ws.len() < 3 {
                    fails_with(r, "usage: action <id> <action-key>"@)
                } else {
                    r matches Ok(Some(DebugCommand::Action { id: i, key: k })) && i == id && k@
                        == ws[2]
                },
                None => fails_with(r, "id must be a positive integer"@),
            }
        }
    } else {
        fails_with(r, "unknown command; use: help, list, close, action, quit"@)
    }
}

/// Parses one line of the debug shell; a blank line is no command.
pub fn parse_command(line: &str) -> (r: Result<Option<DebugCommand>, String>)
    ensures
        command_rel(words(line@), r),
{
    let ws = split_words(line);
    proof {
        assert(ws@.len() == words(line@).len());
        assert(forall|i: int| 0 <= i < ws@.len() ==> ws@[i]@ == #[trigger] words(line@)[i]);
    }
    if ws.len() == 0 {
        return Ok(None);
    }
    let cmd = ws[0].as_str();
    if same_text(cmd, "help") {
        Ok(Some(DebugCommand::Help))
    } else if same_text(cmd, "list") {
        Ok(Some(DebugCommand::List))
    } else if same_text(cmd, "quit") || same_text(cmd, "exit") {
        Ok(Some(DebugCommand::Quit))
    } else if same_text(cmd, "close") {
        if ws.len() < 2 {
            return Err("usage: close <id>".to_owned());
        }
        match parse_u32(ws[1].as_str()) {
            Some(id) => Ok(Some(DebugCommand::Close(id))),
            None => Err("id must be a positive integer".to_owned()),
        }
    } else if same_text(cmd, "action") {
        if ws.len() < 2 {
            return Err("usage: action <id> <action-key>".to_owned());
        }
        let id = match parse_u32(ws[1].as_str()) {
            Some(id) => id,
            None => {
                return Err("id must be a positive integer".to_owned());
            },
        };
        if ws.len() < 3 {
            return Err("usage: action <id> <action-key>".to_owned());
        }
        Ok(Some(DebugCommand::Action { id, key: ws[2].clone() }))
    } else {
        Err("unknown command; use: help, list, close, action, quit".to_owned())
    }
}

} // verus!
