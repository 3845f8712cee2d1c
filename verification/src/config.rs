//! Process configuration: the default list selector and the table
//! rendering style name.

use vstd::prelude::*;

verus! {

/// Configuration for one invocation: which list the task commands edit
/// when none is named, and how tables are rendered. The defaults apply
/// when the config source is absent or malformed; a malformed config is
/// recovered locally, never fatal.
pub struct Config {
    /// Name-or-index token for the default list.
    pub default_list: String,
    /// Name of the table style used by the presentation layer.
    pub table_style: String,
}

impl Default for Config {
    /// The fallback configuration: the list at display index zero and
    /// rounded table corners.
    fn default() -> (c: Self)
        ensures
            c.default_list@ == "0"@,
            c.table_style@ == "rounded"@,
    {
        Config { default_list: "0".to_owned(), table_style: "rounded".to_owned() }
    }
}

/// The token a task command resolves its list with: the explicitly
/// given selector when there is one, otherwise the configured default.
/// The default is an explicit argument here, never ambient state.
pub fn effective_list_token(explicit: Option<String>, config: &Config) -> (t: String)
    ensures
        match explicit {
            Some(s) => t@ == s@,
            None => t@ == config.default_list@,
        },
{
    match explicit {
        Some(s) => s,
        None => config.default_list.clone(),
    }
}

} // verus!
