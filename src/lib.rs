use vstd::prelude::*;
use vstd::string::StringExecFns;

pub mod utils;

use crate::utils::{
    opt_view, is_flag_like, row_text, starts_with_dash, text_eq, push_padded, push_gap,
    CommandModel, FlagArgs, NonFlagArgs,
};

verus! {

/// Creates the todo table when it is absent.
pub const CREATE_TABLE: &'static str = "CREATE TABLE IF NOT EXISTS todo (
            id INTEGER PRIMARY KEY AUTOINCREMENT,
            name TEXT NOT NULL,
            status TEXT DEFAULT 'TODO' CHECK(status IN ('TODO', 'COMPLETED'))
        );";

/// Drops the whole todo table.
pub const DROP_TABLE: &'static str = "DROP TABLE todo";

/// Inserts a pending todo; parameter: its name.
pub const INSERT_TODO: &'static str = "INSERT INTO todo (NAME) VALUES ($1)";

/// Deletes a todo; parameter: its id.
pub const DELETE_TODO: &'static str = "DELETE FROM todo WHERE id=$1";

/// Renames a todo; parameters: the new name, then the id.
pub const RENAME_TODO: &'static str = "UPDATE todo set name=$1 WHERE id=$2";

/// Marks a todo completed; parameter: its id.
pub const MARK_DONE: &'static str = "UPDATE todo set status='COMPLETED' WHERE id=$1";

/// Marks a todo pending again; parameter: its id.
pub const MARK_UNDONE: &'static str = "UPDATE todo set status='TODO' WHERE id=$1";

/// Reads every todo, before any filter.
pub const SELECT_TODOS: &'static str = "SELECT id,name,status FROM todo";

/// The usage text that `help` shows.
pub const HELP_TEXT: &'static str = "
        taskly [COMMAND] [OPTIONS] [ARGS]

        OPTIONS:
            -c          Show only completed todos
            -p          Show only pending todos

        COMMANDS:
            help        Show this message
            add         Add a new todo
            edit        Edit an existing todo
            list        List all todos
            remove      Remove an existing todo
            done        Mark a todo as done
            undone      Mark a todo as undone
            clear       Remove all todos

        ARGS:
            The id of the todo to be edited, removed or marked as done/undone
        ";

/// A resolved command line: the command and the filter flag.
pub struct Conditions<'a> {
    pub flag: FlagArgs,
    pub non_flag: NonFlagArgs<'a>,
}

/// How the two tokens after the command are told apart: `(flag, argument)`.
/// A token that begins with `-` is the flag. With two tokens, the first is the
/// flag when it begins with `-`, else the second is.
pub open spec fn split_rest(
    arg2: Option<Seq<char>>,
    arg3: Option<Seq<char>>,
) -> (Option<Seq<char>>, Option<Seq<char>>) {
    match (arg2, arg3) {
        (Some(a), Some(b)) => if is_flag_like(a) {
            (Some(a), Some(b))
        } else {
            (Some(b), Some(a))
        },
        (Some(a), None) => if is_flag_like(a) {
            (Some(a), None)
        } else {
            (None, Some(a))
        },
        _ => (arg2, arg3),
    }
}

/// The command that a first token names, carrying `input` where it takes one.
pub open spec fn resolve_command(
    tok: Option<Seq<char>>,
    input: Option<Seq<char>>,
) -> CommandModel {
    match tok {
        Some(t) => if t == "help"@ {
            CommandModel::Help
        } else if t == "add"@ {
            CommandModel::Add(input)
        } else if t == "edit"@ {
            CommandModel::Edit(input)
        } else if t == "list"@ {
            CommandModel::List
        } else if t == "remove"@ || t == "rm"@ {
            CommandModel::Remove(input)
        } else if t == "done"@ {
            CommandModel::Done(input)
        } else if t == "undone"@ {
            CommandModel::Undone(input)
        } else if t == "clear"@ {
            CommandModel::Clear
        } else {
            CommandModel::Help
        },
        None => CommandModel::Help,
    }
}

/// The filter that a flag token selects.
pub open spec fn resolve_flag(f: Option<Seq<char>>) -> FlagArgs {
    match f {
        Some(t) => if t == "-c"@ {
            FlagArgs::CompletedOnly
        } else if t == "-p"@ {
            FlagArgs::UncompletedOnly
        } else {
            FlagArgs::All
        },
        None => FlagArgs::All,
    }
}

/// Why a command cannot run.
#[derive(PartialEq, Eq, Structural, Clone, Copy, Debug)]
pub enum CommandError {
    /// The command needs an id or a text, and none was given.
    MissingArgument,
}

/// One database statement with its text parameters, bound in order.
pub struct Statement {
    pub sql: &'static str,
    pub params: Vec<String>,
}

/// What to show for a `list` command.
pub struct ListPlan {
    pub title: String,
    pub query: String,
}

/// The single step that a resolved command asks for.
pub enum Action {
    /// Print the usage text; storage is not touched.
    ShowHelp,
    /// Run one statement against the todo table.
    Execute(Statement),
    /// Read one line as the new name of the todo with this id, then run `edit_statement`.
    PromptEdit(String),
    /// Run the query and print the title, the column header and one line per row.
    List(ListPlan),
}

/// The abstract value of an `Action`.
pub enum ActionModel {
    ShowHelp,
    Execute(Seq<char>, Seq<Seq<char>>),
    PromptEdit(Seq<char>),
    List(Seq<char>, Seq<char>),
}

impl View for Statement {
    type V = (Seq<char>, Seq<Seq<char>>);

    open spec fn view(&self) -> (Seq<char>, Seq<Seq<char>>) {
        (self.sql@, self.params.deep_view())
    }
}

impl View for Action {
    type V = ActionModel;

    open spec fn view(&self) -> ActionModel {
        match self {
            Action::ShowHelp => ActionModel::ShowHelp,
            Action::Execute(s) => ActionModel::Execute(s.sql@, s.params.deep_view()),
            Action::PromptEdit(id) => ActionModel::PromptEdit(id@),
            Action::List(p) => ActionModel::List(p.title@, p.query@),
        }
    }
}

/// The word that the listing title uses for a filter.
pub open spec fn status_word(flag: FlagArgs) -> Seq<char> {
    match flag {
        FlagArgs::All => ""@,
        FlagArgs::CompletedOnly => "Completed"@,
        FlagArgs::UncompletedOnly => "Pending"@,
    }
}

/// The condition that a filter adds to the query.
pub open spec fn status_filter(flag: FlagArgs) -> Seq<char> {
    match flag {
        FlagArgs::All => ""@,
        FlagArgs::CompletedOnly => " WHERE status='COMPLETED'"@,
        FlagArgs::UncompletedOnly => " WHERE status='TODO'"@,
    }
}

/// The title line of a listing.
pub open spec fn list_title(flag: FlagArgs) -> Seq<char> {
    "Here are all the "@ + status_word(flag) + " todos"@
}

/// The query of a listing.
pub open spec fn list_query(flag: FlagArgs) -> Seq<char> {
    SELECT_TODOS@ + status_filter(flag)
}

/// A statement with one parameter, the command's argument.
pub open spec fn one_param(sql: Seq<char>, arg: Seq<char>) -> ActionModel {
    ActionModel::Execute(sql, seq![arg])
}

/// The step that a command asks for, or the error it ends in.
pub open spec fn planned(c: CommandModel, flag: FlagArgs) -> Result<ActionModel, CommandError> {
    match c {
        CommandModel::Help => Ok(ActionModel::ShowHelp),
        CommandModel::List => Ok(ActionModel::List(list_title(flag), list_query(flag))),
        CommandModel::Clear => Ok(ActionModel::Execute(DROP_TABLE@, Seq::empty())),
        CommandModel::Add(a) => match a {
            Some(t) => Ok(one_param(INSERT_TODO@, t)),
            None => Err(CommandError::MissingArgument),
        },
        CommandModel::Remove(a) => match a {
            Some(t) => Ok(one_param(DELETE_TODO@, t)),
            None => Err(CommandError::MissingArgument),
        },
        CommandModel::Edit(a) => match a {
            Some(t) => Ok(ActionModel::PromptEdit(t)),
            None => Err(CommandError::MissingArgument),
        },
        CommandModel::Done(a) => match a {
            Some(t) => Ok(one_param(MARK_DONE@, t)),
            None => Err(CommandError::MissingArgument),
        },
        CommandModel::Undone(a) => match a {
            Some(t) => Ok(one_param(MARK_UNDONE@, t)),
            None => Err(CommandError::MissingArgument),
        },
    }
}

/// The argument that a command needs, or `MissingArgument` when it was not given.
pub fn require_arg<'a>(val: &Option<&'a str>) -> (r: Result<&'a str, CommandError>)
    ensures
        match *val {
            Some(t) => r == Ok::<&'a str, CommandError>(t),
            None => r == Err::<&'a str, CommandError>(CommandError::MissingArgument),
        },
{
    match *val {
        Some(t) => Ok(t),
        None => Err(CommandError::MissingArgument),
    }
}

fn single_param(sql: &'static str, arg: &str) -> (r: Statement)
    ensures
        r@ == (sql@, seq![arg@]),
{
    let mut params: Vec<String> = Vec::new();
    params.push(String::from_str(arg));
    proof {
        assert(params.deep_view() =~= seq![arg@]);
    }
    Statement { sql, params }
}


/// The `Action` result seen through its view.
pub open spec fn plan_view(r: Result<Action, CommandError>) -> Result<ActionModel, CommandError> {
    match r {
        Ok(a) => Ok(a@),
        Err(e) => Err(e),
    }
}

/// A name for what `str::trim` returns: the text without leading and trailing whitespace.
pub uninterp spec fn trimmed_of(s: Seq<char>) -> Seq<char>;

/// Relies on `str::trim`: the result depends on the characters of `s` alone.
#[verifier::external_body]
fn trim_text<'a>(s: &'a str) -> (r: &'a str)
    ensures
        r@ == trimmed_of(s@),
{
    s.trim()
}

/// The statement that renames the todo with id `id` to `name`.
pub fn rename_statement(id: &str, name: &str) -> (r: Statement)
    ensures
        r@ == (RENAME_TODO@, seq![name@, id@]),
{
    let mut params: Vec<String> = Vec::new();
    params.push(String::from_str(name));
    params.push(String::from_str(id));
    proof {
        assert(params.deep_view() =~= seq![name@, id@]);
    }
    Statement { sql: RENAME_TODO, params }
}

/// The statement that an edit runs once the new name was read as `line`:
/// the name is the line without surrounding whitespace.
pub fn edit_statement(id: &str, line: &str) -> (r: Statement)
    ensures
        r@ == (RENAME_TODO@, seq![trimmed_of(line@), id@]),
{
    let name = trim_text(line);
    rename_statement(id, name)
}

/// The title and query of a listing under `flag`.
pub fn list_plan(flag: FlagArgs) -> (r: ListPlan)
    ensures
        r.title@ == list_title(flag),
        r.query@ == list_query(flag),
{
    let (word, filter) = match flag {
        FlagArgs::All => ("", ""),
        FlagArgs::CompletedOnly => ("Completed", " WHERE status='COMPLETED'"),
        FlagArgs::UncompletedOnly => ("Pending", " WHERE status='TODO'"),
    };
    let mut title = String::from_str("Here are all the ");
    title.append(word);
    title.append(" todos");
    let mut query = String::from_str(SELECT_TODOS);
    query.append(filter);
    ListPlan { title, query }
}

/// The column header line of a listing.
pub fn column_header() -> (r: String)
    ensures
        r@ == row_text("ID"@, "NAME"@, "STATUS"@),
{
    let mut out = String::new();
    push_padded(&mut out, "ID", 5);
    push_gap(&mut out);
    push_padded(&mut out, "NAME", 20);
    push_gap(&mut out);
    push_padded(&mut out, "STATUS", 9);
    assert(out@ =~= row_text("ID"@, "NAME"@, "STATUS"@));
    out
}

impl<'a> Conditions<'a> {
    /// The command of an empty command line: help, with no filter.
    pub fn new() -> (r: Self)
        ensures
            r.flag == FlagArgs::All,
            r.non_flag@ == CommandModel::Help,
    {
        Conditions { flag: FlagArgs::All, non_flag: NonFlagArgs::Help }
    }

    /// Resolves the command token and the two tokens after it.
    pub fn from(
        non_flag_arg: Option<&'a str>,
        arg2: Option<&'a str>,
        arg3: Option<&'a str>,
    ) -> (r: Conditions<'a>)
        ensures
            ({
                let (f, input) = split_rest(opt_view(arg2), opt_view(arg3));
                &&& r.non_flag@ == resolve_command(opt_view(non_flag_arg), input)
                &&& r.flag == resolve_flag(f)
            }),
    {
        let (flag_arg, input): (Option<&'a str>, Option<&'a str>) = match (arg2, arg3) {
            (Some(a), Some(b)) => {
                if starts_with_dash(a) {
                    (Some(a), Some(b))
                } else {
                    (Some(b), Some(a))
                }
            },
            (Some(a), None) => {
                if starts_with_dash(a) {
                    (Some(a), None)
                } else {
                    (None, Some(a))
                }
            },
            _ => (arg2, arg3),
        };
        let non_flag = match non_flag_arg {
            Some(t) => {
                if text_eq(t, "help") {
                    NonFlagArgs::Help
                } else if text_eq(t, "add") {
                    NonFlagArgs::Add(input)
                } else if text_eq(t, "edit") {
                    NonFlagArgs::Edit(input)
                } else if text_eq(t, "list") {
                    NonFlagArgs::List
                } else if text_eq(t, "remove") || text_eq(t, "rm") {
                    NonFlagArgs::Remove(input)
                } else if text_eq(t, "done") {
                    NonFlagArgs::Done(input)
                } else if text_eq(t, "undone") {
                    NonFlagArgs::Undone(input)
                } else if text_eq(t, "clear") {
                    NonFlagArgs::Clear
                } else {
                    NonFlagArgs::Help
                }
            },
            None => NonFlagArgs::Help,
        };
        let flag = match flag_arg {
            Some(t) => {
                if text_eq(t, "-c") {
                    FlagArgs::CompletedOnly
                } else if text_eq(t, "-p") {
                    FlagArgs::UncompletedOnly
                } else {
                    FlagArgs::All
                }
            },
            None => FlagArgs::All,
        };
        Conditions { flag, non_flag }
    }

    /// The one step that this command asks for. Help never touches storage;
    /// a command that needs an argument and has none ends in `MissingArgument`.
    pub fn plan(&self) -> (r: Result<Action, CommandError>)
        ensures
            plan_view(r) == planned(self.non_flag@, self.flag),
    {
        match self.non_flag {
            NonFlagArgs::Help => Ok(Action::ShowHelp),
            NonFlagArgs::List => Ok(Action::List(list_plan(self.flag))),
            NonFlagArgs::Clear => {
                let params: Vec<String> = Vec::new();
                proof {
                    assert(params.deep_view() =~= Seq::<Seq<char>>::empty());
                }
                Ok(Action::Execute(Statement { sql: DROP_TABLE, params }))
            },
            NonFlagArgs::Add(value) => {
                let todo = require_arg(&value)?;
                Ok(Action::Execute(single_param(INSERT_TODO, todo)))
            },
            NonFlagArgs::Remove(value) => {
                let todo = require_arg(&value)?;
                Ok(Action::Execute(single_param(DELETE_TODO, todo)))
            },
            NonFlagArgs::Edit(value) => {
                let todo = require_arg(&value)?;
                Ok(Action::PromptEdit(String::from_str(todo)))
            },
            NonFlagArgs::Done(value) => {
                let todo = require_arg(&value)?;
                Ok(Action::Execute(single_param(MARK_DONE, todo)))
            },
            NonFlagArgs::Undone(value) => {
                let todo = require_arg(&value)?;
                Ok(Action::Execute(single_param(MARK_UNDONE, todo)))
            },
        }
    }
}

impl<'a> Default for Conditions<'a> {
    fn default() -> (r: Self)
        ensures
            r.flag == FlagArgs::All,
            r.non_flag@ == CommandModel::Help,
    {
        Self::new()
    }
}

/// Every command keyword selects its own command, and a first token that is
/// none of the keywords (or no token at all) selects help, whatever follows it.
pub proof fn command_keywords_resolve(tok: Option<Seq<char>>, input: Option<Seq<char>>)
    ensures
        resolve_command(Some("help"@), input) == CommandModel::Help,
        resolve_command(Some("list"@), input) == CommandModel::List,
        resolve_command(Some("clear"@), input) == CommandModel::Clear,
        resolve_command(Some("add"@), input) == CommandModel::Add(input),
        resolve_command(Some("edit"@), input) == CommandModel::Edit(input),
        resolve_command(Some("remove"@), input) == CommandModel::Remove(input),
        resolve_command(Some("rm"@), input) == CommandModel::Remove(input),
        resolve_command(Some("done"@), input) == CommandModel::Done(input),
        resolve_command(Some("undone"@), input) == CommandModel::Undone(input),
        (match tok {
            Some(t) => t != "help"@ && t != "add"@ && t != "edit"@ && t != "list"@
                && t != "remove"@ && t != "rm"@ && t != "done"@ && t != "undone"@
                && t != "clear"@,
            None => true,
        }) ==> resolve_command(tok, input) == CommandModel::Help,
{
    reveal_strlit("help");
    reveal_strlit("add");
    reveal_strlit("edit");
    reveal_strlit("list");
    reveal_strlit("remove");
    reveal_strlit("rm");
    reveal_strlit("done");
    reveal_strlit("undone");
    reveal_strlit("clear");
    assert("help"@.len() == 4 && "help"@[0] == 'h');
    assert("add"@.len() == 3 && "add"@[0] == 'a');
    assert("edit"@.len() == 4 && "edit"@[0] == 'e');
    assert("list"@.len() == 4 && "list"@[0] == 'l');
    assert("remove"@.len() == 6 && "remove"@[0] == 'r');
    assert("rm"@.len() == 2 && "rm"@[0] == 'r');
    assert("done"@.len() == 4 && "done"@[0] == 'd');
    assert("undone"@.len() == 6 && "undone"@[0] == 'u');
    assert("clear"@.len() == 5 && "clear"@[0] == 'c');
}

/// `add` without a text never reaches storage: under any filter it ends in
/// `MissingArgument`, so no row is inserted.
pub proof fn add_without_text_is_refused(flag: FlagArgs)
    ensures
        planned(CommandModel::Add(None), flag) == Err::<ActionModel, CommandError>(
            CommandError::MissingArgument,
        ),
{
}

} // verus!
