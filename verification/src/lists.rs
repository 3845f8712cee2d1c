//! The list-collection commands, as plain parsed data. Argument
//! parsing itself happens outside the library and hands these in.

use vstd::prelude::*;

verus! {

/// Create a task list with this name.
pub struct Add {
    pub name: String,
}

/// Remove the task list this name-or-index token resolves to.
pub struct Remove {
    pub name: String,
}

/// Show all task lists, optionally capping how many one page returns.
pub struct Show {
    pub max_results: Option<i32>,
}

/// One subcommand on the collection of lists.
pub enum Command {
    Create(Add),
    Delete(Remove),
    Show(Show),
}

/// The "manage task lists" command.
pub struct Lists {
    pub nested: Command,
}

} // verus!
