use vstd::prelude::*;

use super::{command_with_option, fail_with, CommandSpec, OptionKind, OptionValue};
use crate::text::{push_text, text_of};

verus! {

/// Answers `/test_command`, given the resolved values of its options: it
/// pings the user named in the first option.
pub fn run(options: &Vec<Option<OptionValue>>) -> (r: Result<Option<String>, Option<String>>)
    requires
        options@.len() > 0,
        options@[0] is Some,
    ensures
        match options@[0]->0 {
            OptionValue::User { name } => r matches Ok(Some(m)) && m@ == "Вы пинганули "@ + name@,
            _ => r matches Err(Some(m)) && m@ == "Вы никого не пинганули"@,
        },
{
    match &options[0] {
        Some(OptionValue::User { name }) => {
            let mut m = text_of("Вы пинганули ");
            push_text(&mut m, name.as_str());
            Ok(Some(m))
        },
        _ => fail_with("Вы никого не пинганули"),
    }
}

/// The registration of `/test_command`, with its optional user option.
pub fn register() -> (r: CommandSpec)
    ensures
        r.name@ == "test_command"@,
        r.description@ == "just a test command"@,
        r.options@.len() == 1,
        r.options@[0].name@ == "test_option"@,
        r.options@[0].description@ == "just a test option"@,
        r.options@[0].kind == OptionKind::User,
        !r.options@[0].required,
{
    command_with_option(
        "test_command",
        "just a test command",
        "test_option",
        "just a test option",
        OptionKind::User,
        false,
    )
}

} // verus!
