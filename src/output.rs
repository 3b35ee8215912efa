//! What the client shows: help, argument errors, and the service's replies.

use vstd::prelude::*;
use vstd::string::*;
use crate::command::{ArgError, Command};
use crate::text::{int_text, int_to_text, usize_to_text};

verus! {

/// The list of commands, as `help` shows it.
pub const HELP_TEXT: &'static str = "\nCommands List\n\n    list: Lists all drops\n    usage: list\n\n    create: Creates drop\n    usage: create <NAME> <PARAM> <SECRET> <TYPE> <STOCK>\n\n    delete: Deletes specific drop\n    usage: delete <NAME>\n\n    view: Shows specific drop details\n    usage: view <NAME>\n\n    edit: Edits specific drop details\n    usage: edit <NAME> <FIELD> <VALUE>\n";

/// A drop as the service describes it.
#[derive(Debug, Clone, PartialEq, Eq)]
pub struct DropRecord {
    pub name: String,
    pub param: String,
    pub secret: String,
    pub drop_type: String,
    pub stock: i32,
    pub purchased: i32,
}

/// What came back for a request, once decoded.
#[derive(Debug, Clone, PartialEq, Eq)]
pub enum Reply {
    /// The request did not reach the service; holds the transport's account of why.
    Transport(String),
    /// The body did not have the shape the command expects.
    Undecodable,
    /// The body of `list`: every drop.
    Drops(Vec<DropRecord>),
    /// The body of `view`: one drop.
    One(DropRecord),
    /// The body of `create`, `edit` and `delete`: whether the service did it.
    Status(bool),
}

pub open spec fn help_spec() -> Seq<char> {
    HELP_TEXT@ + "\n"@
}

/// The text that `help` shows.
pub fn help_text() -> (r: String)
    ensures
        r@ == help_spec(),
{
    String::from_str(HELP_TEXT).concat("\n")
}

pub open spec fn arg_error_spec(e: ArgError) -> Seq<char> {
    match e {
        ArgError::ViewArity => "View command requires 1 argument, 0 were provided\n\n"@,
        ArgError::DeleteArity => "Delete command requires 1 argument, 0 were provided\n\n"@,
        ArgError::CreateArity(n) => "Create command requires 4 arguments, "@ + int_text(n as int)
            + " were provided\n\n"@,
        ArgError::EditArity(n) => "Edit command requires 2 arguments, "@ + int_text(n as int) + (
        if n == 1 {
            " was provided\n\n"@
        } else {
            " were provided\n\n"@
        }),
        ArgError::EditField =>
            "Edit command argument 1 must be a valid argument (name, param, secret, type, stock)\n\n"@,
        ArgError::DropType => "Type argument value must be a valid drop type\n\n"@,
        ArgError::Stock => "Stock argument value must be an integer\n\n"@,
    }
}

impl ArgError {
    /// The message shown for this error.
    pub fn message(&self) -> (r: String)
        ensures
            r@ == arg_error_spec(*self),
    {
        match self {
            ArgError::ViewArity => String::from_str(
                "View command requires 1 argument, 0 were provided\n\n",
            ),
            ArgError::DeleteArity => String::from_str(
                "Delete command requires 1 argument, 0 were provided\n\n",
            ),
            ArgError::CreateArity(n) => String::from_str(
                "Create command requires 4 arguments, ",
            ).concat(usize_to_text(*n).as_str()).concat(" were provided\n\n"),
            ArgError::EditArity(n) => {
                let head = String::from_str("Edit command requires 2 arguments, ").concat(
                    usize_to_text(*n).as_str(),
                );
                if *n == 1 {
                    head.concat(" was provided\n\n")
                } else {
                    head.concat(" were provided\n\n")
                }
            },
            ArgError::EditField => String::from_str(
                "Edit command argument 1 must be a valid argument (name, param, secret, type, stock)\n\n",
            ),
            ArgError::DropType => String::from_str(
                "Type argument value must be a valid drop type\n\n",
            ),
            ArgError::Stock => String::from_str("Stock argument value must be an integer\n\n"),
        }
    }
}

/// The six fields of a drop, one per line, in a fixed order, then a blank line.
pub open spec fn drop_spec(d: DropRecord) -> Seq<char> {
    "Name: "@ + d.name@ + "\nParameter: "@ + d.param@ + "\nSecret token: "@ + d.secret@
        + "\nType: "@ + d.drop_type@ + "\nStock: "@ + int_text(d.stock as int) + "\nPurchased: "@
        + int_text(d.purchased as int) + "\n\n"@
}

/// The drops of `s`, one after the other.
pub open spec fn drops_spec(s: Seq<DropRecord>) -> Seq<char>
    decreases s.len(),
{
    if s.len() == 0 {
        Seq::<char>::empty()
    } else {
        drops_spec(s.drop_last()) + drop_spec(s.last())
    }
}

/// Shows one drop.
pub fn drop_text(d: &DropRecord) -> (r: String)
    ensures
        r@ == drop_spec(*d),
{
    let mut out = String::from_str("Name: ");
    out.append(d.name.as_str());
    out.append("\nParameter: ");
    out.append(d.param.as_str());
    out.append("\nSecret token: ");
    out.append(d.secret.as_str());
    out.append("\nType: ");
    out.append(d.drop_type.as_str());
    out.append("\nStock: ");
    out.append(int_to_text(d.stock as i64).as_str());
    out.append("\nPurchased: ");
    out.append(int_to_text(d.purchased as i64).as_str());
    out.append("\n\n");
    out
}

pub open spec fn list_spec(s: Seq<DropRecord>) -> Seq<char> {
    if s.len() == 0 {
        "There are currently no drops\n\n"@
    } else {
        drops_spec(s)
    }
}

/// Shows every drop of a listing, or says that there is none.
pub fn list_text(drops: &Vec<DropRecord>) -> (r: String)
    ensures
        r@ == list_spec(drops@),
{
    if drops.len() == 0 {
        return String::from_str("There are currently no drops\n\n");
    }
    let mut out = String::new();
    let mut i: usize = 0;
    while i < drops.len()
        invariant
            i <= drops@.len(),
            out@ == drops_spec(drops@.take(i as int)),
        decreases drops@.len() - i,
    {
        assert(drops@.take(i + 1).drop_last() =~= drops@.take(i as int));
        out.append(drop_text(&drops[i]).as_str());
        i = i + 1;
    }
    assert(drops@.take(drops@.len() as int) =~= drops@);
    out
}

pub open spec fn no_drop_spec(name: Seq<char>) -> Seq<char> {
    "There are no drops named: "@ + name + "\n\n"@
}

pub open spec fn done_spec(name: Seq<char>, verb: Seq<char>) -> Seq<char> {
    "Drop: "@ + name + " has been "@ + verb + "\n\n"@
}

/// The first line shown when a command's request did not reach the service.
pub open spec fn transport_heading(cmd: Command) -> Seq<char> {
    match cmd {
        Command::List => "Error while getting lists:\n"@,
        Command::View(_) => "Error while getting list:\n"@,
        Command::Edit(_) => "Error while editing drop:\n"@,
        Command::Delete(_) => "Error while deleting drop:\n"@,
        _ => "Error while creating drop:\n"@,
    }
}

/// What is shown once the reply to `cmd` has come back.
pub open spec fn reply_spec(cmd: Command, reply: Reply) -> Seq<char> {
    match cmd {
        Command::Help => help_spec(),
        _ => match reply {
            Reply::Transport(e) => transport_heading(cmd) + e@ + "\n\n"@,
            _ => match cmd {
                Command::List => match reply {
                    Reply::Drops(ds) => list_spec(ds@),
                    _ => "The list of drops could not be read\n\n"@,
                },
                Command::View(n) => match reply {
                    Reply::One(d) => drop_spec(d),
                    _ => no_drop_spec(n@),
                },
                Command::Edit(e) => if reply == Reply::Status(true) {
                    done_spec(e.name@, "edited"@)
                } else {
                    no_drop_spec(e.name@)
                },
                Command::Delete(n) => if reply == Reply::Status(true) {
                    done_spec(n@, "deleted"@)
                } else {
                    no_drop_spec(n@)
                },
                Command::Create(c) => if reply == Reply::Status(true) {
                    done_spec(c.name@, "created"@)
                } else {
                    "There was an error creating the drop\n\n"@
                },
                Command::Help => help_spec(),
            },
        },
    }
}

fn no_drop_text(name: &str) -> (r: String)
    ensures
        r@ == no_drop_spec(name@),
{
    String::from_str("There are no drops named: ").concat(name).concat("\n\n")
}

fn done_text(name: &str, verb: &str) -> (r: String)
    ensures
        r@ == done_spec(name@, verb@),
{
    String::from_str("Drop: ").concat(name).concat(" has been ").concat(verb).concat("\n\n")
}

fn is_success(reply: &Reply) -> (r: bool)
    ensures
        r == (*reply == Reply::Status(true)),
{
    match reply {
        Reply::Status(b) => *b,
        _ => false,
    }
}

/// Shows the reply that came back for `cmd`.
pub fn reply_text(cmd: &Command, reply: &Reply) -> (r: String)
    ensures
        r@ == reply_spec(*cmd, *reply),
{
    if let Command::Help = cmd {
        return help_text();
    }
    if let Reply::Transport(e) = reply {
        let heading = match cmd {
            Command::List => "Error while getting lists:\n",
            Command::View(_) => "Error while getting list:\n",
            Command::Edit(_) => "Error while editing drop:\n",
            Command::Delete(_) => "Error while deleting drop:\n",
            _ => "Error while creating drop:\n",
        };
        return String::from_str(heading).concat(e.as_str()).concat("\n\n");
    }
    match cmd {
        Command::List => match reply {
            Reply::Drops(ds) => list_text(ds),
            _ => String::from_str("The list of drops could not be read\n\n"),
        },
        Command::View(n) => match reply {
            Reply::One(d) => drop_text(d),
            _ => no_drop_text(n.as_str()),
        },
        Command::Edit(e) => if is_success(reply) {
            done_text(e.name.as_str(), "edited")
        } else {
            no_drop_text(e.name.as_str())
        },
        Command::Delete(n) => if is_success(reply) {
            done_text(n.as_str(), "deleted")
        } else {
            no_drop_text(n.as_str())
        },
        Command::Create(c) => if is_success(reply) {
            done_text(c.name.as_str(), "created")
        } else {
            String::from_str("There was an error creating the drop\n\n")
        },
        Command::Help => help_text(),
    }
}

} // verus!
