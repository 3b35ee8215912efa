//! Commands typed at the prompt, and the checks made on them before any request.

use vstd::prelude::*;
use vstd::string::*;
use crate::text::{i32_of, lemma_split_nonempty, parse_i32, split_spaces, split_tokens, str_eq, views};

verus! {

/// What a drop to be created holds; the service starts its purchase count at zero.
#[derive(Debug, Clone, PartialEq, Eq)]
pub struct DropCreate {
    pub name: String,
    pub param: String,
    pub secret: String,
    pub drop_type: String,
    pub stock: i32,
}

/// The new value of an edited field: an integer for the stock, text otherwise.
#[derive(Debug, Clone, PartialEq, Eq)]
pub enum EditValue {
    Text(String),
    Int(i32),
}

/// A change of one field of the drop called `name`.
#[derive(Debug, Clone, PartialEq, Eq)]
pub struct DropEdit {
    pub name: String,
    pub argument: String,
    pub value: EditValue,
}

/// A command whose arguments have been checked.
#[derive(Debug, Clone, PartialEq, Eq)]
pub enum Command {
    Help,
    List,
    View(String),
    Create(DropCreate),
    Edit(DropEdit),
    Delete(String),
}

/// Why the arguments of a command were refused.
#[derive(Debug, Clone, PartialEq, Eq)]
pub enum ArgError {
    /// `view` without a name.
    ViewArity,
    /// `delete` without a name.
    DeleteArity,
    /// `create` without exactly five arguments; holds how many were given.
    CreateArity(usize),
    /// `edit` without a field and a value; holds how many of the two were given.
    EditArity(usize),
    /// `edit` of a field that drops do not have.
    EditField,
    /// A drop type that is none of the four known ones.
    DropType,
    /// A stock that is no `i32`.
    Stock,
}

/// The outcome of reading one line.
#[derive(Debug, Clone, PartialEq, Eq)]
pub enum Parsed {
    /// The line names no command: nothing is shown and nothing is sent.
    Ignored,
    /// The command's arguments were refused: the error is shown and nothing is sent.
    Rejected(ArgError),
    /// The command is ready to run.
    Ready(Command),
}

pub open spec fn is_drop_type(s: Seq<char>) -> bool {
    s == "initial-lifetime"@ || s == "paid-lifetime"@ || s == "initial-renewal"@ || s
        == "paid-renewal"@
}

pub open spec fn is_edit_field(s: Seq<char>) -> bool {
    s == "name"@ || s == "param"@ || s == "secret"@ || s == "type"@ || s == "stock"@
}

/// Whether `s` is one of the four drop types.
pub fn is_valid_drop_type(s: &str) -> (r: bool)
    ensures
        r == is_drop_type(s@),
{
    str_eq(s, "initial-lifetime") || str_eq(s, "paid-lifetime") || str_eq(s, "initial-renewal")
        || str_eq(s, "paid-renewal")
}

/// Whether `s` names a field that `edit` can change.
pub fn is_valid_edit_field(s: &str) -> (r: bool)
    ensures
        r == is_edit_field(s@),
{
    str_eq(s, "name") || str_eq(s, "param") || str_eq(s, "secret") || str_eq(s, "type")
        || str_eq(s, "stock")
}

pub open spec fn view_spec(t: Seq<Seq<char>>, r: Parsed) -> bool {
    if t.len() < 2 {
        r == Parsed::Rejected(ArgError::ViewArity)
    } else {
        match r {
            Parsed::Ready(Command::View(n)) => n@ == t[1],
            _ => false,
        }
    }
}

pub open spec fn delete_spec(t: Seq<Seq<char>>, r: Parsed) -> bool {
    if t.len() < 2 {
        r == Parsed::Rejected(ArgError::DeleteArity)
    } else {
        match r {
            Parsed::Ready(Command::Delete(n)) => n@ == t[1],
            _ => false,
        }
    }
}

pub open spec fn create_spec(t: Seq<Seq<char>>, r: Parsed) -> bool {
    if t.len() != 6 {
        r == Parsed::Rejected(ArgError::CreateArity((t.len() - 1) as usize))
    } else if !is_drop_type(t[4]) {
        r == Parsed::Rejected(ArgError::DropType)
    } else if i32_of(t[5]) is None {
        r == Parsed::Rejected(ArgError::Stock)
    } else {
        match r {
            Parsed::Ready(Command::Create(c)) => c.name@ == t[1] && c.param@ == t[2] && c.secret@
                == t[3] && c.drop_type@ == t[4] && i32_of(t[5]) == Some(c.stock),
            _ => false,
        }
    }
}

/// How the text `v` given for `field` is carried to the service.
pub open spec fn edit_value_spec(field: Seq<char>, v: Seq<char>, value: EditValue) -> bool {
    if field == "stock"@ {
        i32_of(v) is Some && value == EditValue::Int(i32_of(v)->0)
    } else {
        match value {
            EditValue::Text(s) => s@ == v,
            EditValue::Int(_) => false,
        }
    }
}

pub open spec fn edit_spec(t: Seq<Seq<char>>, r: Parsed) -> bool {
    if t.len() < 4 {
        r == Parsed::Rejected(
            ArgError::EditArity(
                if t.len() >= 2 {
                    (t.len() - 2) as usize
                } else {
                    0usize
                },
            ),
        )
    } else if !is_edit_field(t[2]) {
        r == Parsed::Rejected(ArgError::EditField)
    } else if t[2] == "type"@ && !is_drop_type(t[3]) {
        r == Parsed::Rejected(ArgError::DropType)
    } else if t[2] == "stock"@ && i32_of(t[3]) is None {
        r == Parsed::Rejected(ArgError::Stock)
    } else {
        match r {
            Parsed::Ready(Command::Edit(e)) => e.name@ == t[1] && e.argument@ == t[2]
                && edit_value_spec(t[2], t[3], e.value),
            _ => false,
        }
    }
}

/// What a line split into the tokens `t` means.
pub open spec fn parse_spec(t: Seq<Seq<char>>, r: Parsed) -> bool {
    let head = t[0];
    if head == "help"@ {
        r == Parsed::Ready(Command::Help)
    } else if head == "list"@ {
        r == Parsed::Ready(Command::List)
    } else if head == "view"@ {
        view_spec(t, r)
    } else if head == "create"@ {
        create_spec(t, r)
    } else if head == "edit"@ {
        edit_spec(t, r)
    } else if head == "delete"@ {
        delete_spec(t, r)
    } else {
        r == Parsed::Ignored
    }
}

fn parse_create(t: &Vec<String>) -> (r: Parsed)
    requires
        t@.len() >= 1,
    ensures
        create_spec(views(t@), r),
{
    let ghost v = views(t@);
    if t.len() != 6 {
        return Parsed::Rejected(ArgError::CreateArity(t.len() - 1));
    }
    assert(v[4] == t@[4]@ && v[5] == t@[5]@);
    if !is_valid_drop_type(t[4].as_str()) {
        return Parsed::Rejected(ArgError::DropType);
    }
    match parse_i32(t[5].as_str()) {
        None => Parsed::Rejected(ArgError::Stock),
        Some(stock) => {
            let c = DropCreate {
                name: t[1].clone(),
                param: t[2].clone(),
                secret: t[3].clone(),
                drop_type: t[4].clone(),
                stock,
            };
            assert(v[1] == t@[1]@ && v[2] == t@[2]@ && v[3] == t@[3]@);
            Parsed::Ready(Command::Create(c))
        },
    }
}

fn parse_edit(t: &Vec<String>) -> (r: Parsed)
    requires
        t@.len() >= 1,
    ensures
        edit_spec(views(t@), r),
{
    let ghost v = views(t@);
    if t.len() < 4 {
        let given: usize = if t.len() >= 2 {
            t.len() - 2
        } else {
            0
        };
        return Parsed::Rejected(ArgError::EditArity(given));
    }
    assert(v[1] == t@[1]@ && v[2] == t@[2]@ && v[3] == t@[3]@);
    let field = t[2].as_str();
    if !is_valid_edit_field(field) {
        return Parsed::Rejected(ArgError::EditField);
    }
    let value = if str_eq(field, "stock") {
        proof {
            reveal_strlit("stock");
            reveal_strlit("type");
            assert("stock"@[0] != "type"@[0]);
        }
        match parse_i32(t[3].as_str()) {
            None => {
                return Parsed::Rejected(ArgError::Stock);
            },
            Some(n) => EditValue::Int(n),
        }
    } else {
        if str_eq(field, "type") && !is_valid_drop_type(t[3].as_str()) {
            return Parsed::Rejected(ArgError::DropType);
        }
        EditValue::Text(t[3].clone())
    };
    Parsed::Ready(Command::Edit(DropEdit { name: t[1].clone(), argument: t[2].clone(), value }))
}

/// Reads the tokens of one line: which command they name, and whether its
/// arguments are acceptable.
pub fn parse_tokens(t: &Vec<String>) -> (r: Parsed)
    requires
        t@.len() >= 1,
    ensures
        parse_spec(views(t@), r),
{
    let ghost v = views(t@);
    assert(v[0] == t@[0]@);
    let head = t[0].as_str();
    if str_eq(head, "help") {
        Parsed::Ready(Command::Help)
    } else if str_eq(head, "list") {
        Parsed::Ready(Command::List)
    } else if str_eq(head, "view") {
        if t.len() < 2 {
            Parsed::Rejected(ArgError::ViewArity)
        } else {
            assert(v[1] == t@[1]@);
            Parsed::Ready(Command::View(t[1].clone()))
        }
    } else if str_eq(head, "create") {
        parse_create(t)
    } else if str_eq(head, "edit") {
        parse_edit(t)
    } else if str_eq(head, "delete") {
        if t.len() < 2 {
            Parsed::Rejected(ArgError::DeleteArity)
        } else {
            assert(v[1] == t@[1]@);
            Parsed::Ready(Command::Delete(t[1].clone()))
        }
    } else {
        Parsed::Ignored
    }
}

/// Reads one line typed at the prompt, its line terminator already removed.
pub fn parse_line(line: &str) -> (r: Parsed)
    ensures
        parse_spec(split_spaces(line@), r),
{
    let t = split_tokens(line);
    proof {
        lemma_split_nonempty(line@);
    }
    parse_tokens(&t)
}

} // verus!
