//! Recognition of the merge command in a comment addressed to the bot.

use vstd::prelude::*;

use crate::textutil::str_equal;

verus! {

/// The comment command that starts a merge run.
#[derive(PartialEq, Eq, Debug)]
pub struct RfcMergePrCommand;

impl RfcMergePrCommand {
    /// Recognizes the command from the next word of a tokenized comment:
    /// the command is present exactly when that word is `rfc-merge-pr`.
    pub fn parse(input: Option<&str>) -> (r: Option<RfcMergePrCommand>)
        ensures
            (r is Some) <==> (input matches Some(w) && w@ == "rfc-merge-pr"@),
    {
        match input {
            Some(w) => {
                if str_equal(w, "rfc-merge-pr") {
                    Some(RfcMergePrCommand)
                } else {
                    None
                }
            },
            None => None,
        }
    }
}

} // verus!
