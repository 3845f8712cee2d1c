//! The task commands, as plain parsed data. Argument parsing itself
//! happens outside the library and hands these in.

use vstd::prelude::*;

verus! {

/// Show the tasks of the selected list.
pub struct List {}

/// Add a task per title, in order.
pub struct Add {
    pub names: Vec<String>,
}

/// Remove the tasks these name-or-index tokens resolve to.
pub struct Remove {
    pub names: Vec<String>,
}

/// Finish the tasks these name-or-index tokens resolve to.
pub struct Finish {
    pub names: Vec<String>,
}

/// One subcommand on the tasks of a list.
pub enum Command {
    List(List),
    Add(Add),
    Remove(Remove),
    Finish(Finish),
}

/// The "manage tasks" command: which list to edit (the configured
/// default when absent) and what to do in it.
pub struct Tasks {
    pub list: Option<String>,
    pub nested: Command,
}

} // verus!
