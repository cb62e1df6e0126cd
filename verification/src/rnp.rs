//! The program that only names itself.

use vstd::prelude::*;
use crate::context::Context;
use crate::error::GreetingError;
use crate::text::{greetings_from, greetings_from_text, pubkey_text};

verus! {

/// The accounts of `initialize`: none.
#[derive(Clone, Copy, Debug)]
pub struct Initialize {
}

/// Names the running program: succeeds on every input, changes nothing and
/// gives the one line for the log, which holds the text of the program's key.
pub fn initialize(ctx: &Context<Initialize>) -> (outcome: Result<String, GreetingError>)
    ensures
        outcome is Ok,
        outcome->Ok_0@ == greetings_from_text(pubkey_text(ctx.program_id@)),
{
    Ok(greetings_from(&ctx.program_id))
}

} // verus!
