//! The `version` subcommand: one flag that chooses the rendering.

use vstd::prelude::*;

use crate::info::VergenInfo;
use crate::json::renders;
use crate::json::SerializationError;

verus! {

/// The arguments of the `version` subcommand.
#[derive(Debug, Clone, Copy)]
pub struct Version {
    /// Whether `--json` was given: print the structured rendering, not the
    /// table.
    pub json: bool,
}

impl Default for Version {
    /// The subcommand as it is when no flag is given: `--json` is off.
    fn default() -> (version: Self)
        ensures
            !version.json,
    {
        Version { json: false }
    }
}

impl Version {
    /// The text that the subcommand prints for `info`: the table unless
    /// `--json` was given, the structured rendering if it was. Only the
    /// structured rendering can fail.
    pub fn render(&self, info: &VergenInfo) -> (result: Result<String, SerializationError>)
        ensures
            !self.json ==> (result matches Ok(text) && text@ == info.table_view()),
            self.json ==> renders(info.entries(), result),
    {
        if self.json {
            info.to_json()
        } else {
            Ok(info.to_string())
        }
    }
}

} // verus!
