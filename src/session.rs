//! One turn of the prompt: from a typed line to what is shown or sent, and the
//! properties that every turn has.

use vstd::prelude::*;
use crate::command::{is_drop_type, parse_spec, ArgError, Command, Parsed};
use crate::output::{arg_error_spec, help_spec, help_text, reply_spec, drop_spec, drops_spec, list_spec, DropRecord, Reply};
use crate::request::{
    create_body, edit_body, json_string_of, request_for, request_spec,
    ClientConfig, HttpRequest,
};
use crate::text::{i32_of, int_text, lemma_split_nonempty, split_spaces};

verus! {

/// What the driver does after a line has been read.
#[derive(Debug, Clone, PartialEq, Eq)]
pub enum Action {
    /// Nothing at all.
    Nothing,
    /// Show this text; no request.
    Print(String),
    /// Send this request, then show what `reply_text` makes of the reply.
    Send(HttpRequest),
}

pub open spec fn decide_spec(cfg: ClientConfig, p: Parsed, a: Action) -> bool {
    match p {
        Parsed::Ignored => a is Nothing,
        Parsed::Rejected(e) => match a {
            Action::Print(s) => s@ == arg_error_spec(e),
            _ => false,
        },
        Parsed::Ready(Command::Help) => match a {
            Action::Print(s) => s@ == help_spec(),
            _ => false,
        },
        Parsed::Ready(c) => match a {
            Action::Send(q) => request_spec(cfg, c, Some(q)),
            _ => false,
        },
    }
}

/// Decides what a read line leads to: nothing, a message, or one request.
pub fn decide(cfg: &ClientConfig, p: &Parsed) -> (a: Action)
    ensures
        decide_spec(*cfg, *p, a),
{
    match p {
        Parsed::Ignored => Action::Nothing,
        Parsed::Rejected(e) => Action::Print(e.message()),
        Parsed::Ready(Command::Help) => Action::Print(help_text()),
        Parsed::Ready(c) => match request_for(cfg, c) {
            Some(q) => Action::Send(q),
            None => Action::Nothing,
        },
    }
}

/// The fewest tokens, the command's own included, that a command needs.
pub open spec fn min_tokens(head: Seq<char>) -> nat {
    if head == "view"@ || head == "delete"@ {
        2
    } else if head == "create"@ {
        6
    } else if head == "edit"@ {
        4
    } else {
        1
    }
}

pub open spec fn is_arity_error(e: ArgError) -> bool {
    e is ViewArity || e is DeleteArity || e is CreateArity || e is EditArity
}

/// The command words differ already in their first letters.
proof fn lemma_command_words()
    ensures
        "help"@.len() > 0 && "help"@[0] == 'h',
        "list"@.len() > 0 && "list"@[0] == 'l',
        "view"@.len() > 0 && "view"@[0] == 'v',
        "create"@.len() > 0 && "create"@[0] == 'c',
        "edit"@.len() > 0 && "edit"@[0] == 'e',
        "delete"@.len() > 0 && "delete"@[0] == 'd',
{
    reveal_strlit("help");
    reveal_strlit("list");
    reveal_strlit("view");
    reveal_strlit("create");
    reveal_strlit("edit");
    reveal_strlit("delete");
}

/// A command given fewer arguments than it needs sends no request; it shows the
/// message that says how many arguments the command requires.
pub proof fn lemma_short_command_sends_nothing(
    cfg: ClientConfig,
    line: Seq<char>,
    p: Parsed,
    a: Action,
)
    requires
        parse_spec(split_spaces(line), p),
        decide_spec(cfg, p, a),
        split_spaces(line).len() < min_tokens(split_spaces(line)[0]),
    ensures
        p is Rejected,
        is_arity_error(p->Rejected_0),
        a is Print,
        a->Print_0@ == arg_error_spec(p->Rejected_0),
{
    lemma_split_nonempty(line);
    lemma_command_words();
}

/// `create` with a type that is none of the four drop types sends no request;
/// when its arguments are complete, it shows the drop-type message.
pub proof fn lemma_create_bad_type_sends_nothing(
    cfg: ClientConfig,
    line: Seq<char>,
    p: Parsed,
    a: Action,
)
    requires
        parse_spec(split_spaces(line), p),
        decide_spec(cfg, p, a),
        split_spaces(line)[0] == "create"@,
        split_spaces(line).len() > 4,
        !is_drop_type(split_spaces(line)[4]),
    ensures
        !(a is Send),
        split_spaces(line).len() == 6 ==> p == Parsed::Rejected(ArgError::DropType) && a is Print
            && a->Print_0@ == arg_error_spec(ArgError::DropType),
{
    lemma_split_nonempty(line);
    lemma_command_words();
}

/// `create` with a stock that is no integer sends no request; when its other
/// arguments are acceptable, it shows the stock message.
pub proof fn lemma_create_bad_stock_sends_nothing(
    cfg: ClientConfig,
    line: Seq<char>,
    p: Parsed,
    a: Action,
)
    requires
        parse_spec(split_spaces(line), p),
        decide_spec(cfg, p, a),
        split_spaces(line)[0] == "create"@,
        split_spaces(line).len() > 5,
        i32_of(split_spaces(line)[5]) is None,
    ensures
        !(a is Send),
        split_spaces(line).len() == 6 && is_drop_type(split_spaces(line)[4]) ==> p
            == Parsed::Rejected(ArgError::Stock) && a is Print && a->Print_0@ == arg_error_spec(
            ArgError::Stock,
        ),
{
    lemma_split_nonempty(line);
    lemma_command_words();
}

/// `edit` of the stock with a value that is no integer sends no request and
/// shows the stock message.
pub proof fn lemma_edit_bad_stock_sends_nothing(
    cfg: ClientConfig,
    line: Seq<char>,
    p: Parsed,
    a: Action,
)
    requires
        parse_spec(split_spaces(line), p),
        decide_spec(cfg, p, a),
        split_spaces(line)[0] == "edit"@,
        split_spaces(line).len() >= 4,
        split_spaces(line)[2] == "stock"@,
        i32_of(split_spaces(line)[3]) is None,
    ensures
        p == Parsed::Rejected(ArgError::Stock),
        a is Print,
        a->Print_0@ == arg_error_spec(ArgError::Stock),
{
    lemma_split_nonempty(line);
    lemma_command_words();
    reveal_strlit("stock");
    reveal_strlit("type");
    assert("stock"@[0] != "type"@[0]);
}

/// An accepted `edit` sends the new value as a JSON number when the field is
/// the stock, and as a JSON string for every other field.
pub proof fn lemma_edit_value_typing(cfg: ClientConfig, line: Seq<char>, p: Parsed, a: Action)
    requires
        parse_spec(split_spaces(line), p),
        decide_spec(cfg, p, a),
        split_spaces(line)[0] == "edit"@,
        p is Ready,
    ensures
        a is Send,
        a->Send_0.body is Some,
        ({
            let t = split_spaces(line);
            a->Send_0.body->0@ == "{\"name\":"@ + json_string_of(t[1]) + ",\"argument\":"@
                + json_string_of(t[2]) + ",\"value\":"@ + (if t[2] == "stock"@ {
                int_text(i32_of(t[3])->0 as int)
            } else {
                json_string_of(t[3])
            }) + "}"@
        }),
{
    lemma_split_nonempty(line);
    lemma_command_words();
    let e = p->Ready_0->Edit_0;
    assert(a->Send_0.body->0@ == edit_body(e));
}

/// An accepted `create` sends the stock as a JSON number: the decimal form of
/// the integer that its last argument writes.
pub proof fn lemma_create_stock_is_number(cfg: ClientConfig, line: Seq<char>, p: Parsed, a: Action)
    requires
        parse_spec(split_spaces(line), p),
        decide_spec(cfg, p, a),
        split_spaces(line)[0] == "create"@,
        p is Ready,
    ensures
        a is Send,
        a->Send_0.body is Some,
        ({
            let t = split_spaces(line);
            a->Send_0.body->0@ == "{\"name\":"@ + json_string_of(t[1]) + ",\"param\":"@
                + json_string_of(t[2]) + ",\"secret\":"@ + json_string_of(t[3]) + ",\"type\":"@
                + json_string_of(t[4]) + ",\"stock\":"@ + int_text(i32_of(t[5])->0 as int) + "}"@
        }),
{
    lemma_split_nonempty(line);
    lemma_command_words();
    let c = p->Ready_0->Create_0;
    assert(a->Send_0.body->0@ == create_body(c));
}

/// A line whose first token names no command shows nothing and sends nothing.
pub proof fn lemma_unknown_command_is_ignored(
    cfg: ClientConfig,
    line: Seq<char>,
    p: Parsed,
    a: Action,
)
    requires
        parse_spec(split_spaces(line), p),
        decide_spec(cfg, p, a),
        ({
            let h = split_spaces(line)[0];
            h != "help"@ && h != "list"@ && h != "view"@ && h != "create"@ && h != "edit"@ && h
                != "delete"@
        }),
    ensures
        p == Parsed::Ignored,
        a is Nothing,
{
}

/// A listing of one drop shows that drop's six fields, in their fixed order.
pub proof fn lemma_single_drop_listing(drops: Vec<DropRecord>)
    requires
        drops@.len() == 1,
    ensures
        reply_spec(Command::List, Reply::Drops(drops)) == drop_spec(drops@[0]),
{
    assert(drops@.drop_last() =~= Seq::<DropRecord>::empty());
    assert(drops_spec(drops@.drop_last()) == Seq::<char>::empty());
    assert(list_spec(drops@) == drops_spec(drops@.drop_last()) + drop_spec(drops@.last()));
    assert(Seq::<char>::empty() + drop_spec(drops@[0]) =~= drop_spec(drops@[0]));
}

} // verus!
