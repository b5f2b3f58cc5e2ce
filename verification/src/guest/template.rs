//! The template plugin: a greeting, a repetition and a check of its input.

use crate::text::joined;
use vstd::prelude::*;

verus! {

/// The input of the template's functions.
#[derive(Debug)]
pub struct ExampleInput {
    pub message: String,
    pub count: Option<u32>,
}

/// The output of the template's functions.
#[derive(Debug)]
pub struct ExampleOutput {
    pub result: String,
    pub timestamp: u64,
}

/// A failure of one of the template's functions, with its code.
#[derive(Debug)]
pub struct PluginError {
    pub error: String,
    pub code: String,
}

/// Why an input is refused, with the code that the plugin returns for it.
#[derive(Debug, Clone, Copy, PartialEq, Eq, Structural)]
pub enum InputRefusal {
    /// The message is empty: code 1.
    EmptyMessage,
    /// The count is 0 or above 100: code 2.
    CountOutOfRange,
}

/// The most repetitions that an input may ask for.
pub const MAX_COUNT: u32 = 100;

/// `text` repeated `count` times, with a space between two repetitions.
pub open spec fn repeated(text: Seq<char>, count: nat) -> Seq<char>
    decreases count,
{
    if count == 0 {
        Seq::empty()
    } else if count == 1 {
        text
    } else {
        repeated(text, (count - 1) as nat).push(' ') + text
    }
}

/// Why an input is refused, if it is: an empty message first, then a count
/// that is given and is 0 or above 100.
pub open spec fn input_refusal(message: Seq<char>, count: Option<u32>) -> Option<InputRefusal> {
    if message.len() == 0 {
        Some(InputRefusal::EmptyMessage)
    } else if count is Some && (count->Some_0 == 0 || count->Some_0 > MAX_COUNT) {
        Some(InputRefusal::CountOutOfRange)
    } else {
        None
    }
}

impl InputRefusal {
    /// The code that the plugin returns.
    pub fn code(&self) -> (r: i32)
        ensures
            r == match self {
                InputRefusal::EmptyMessage => 1i32,
                InputRefusal::CountOutOfRange => 2i32,
            },
    {
        match self {
            InputRefusal::EmptyMessage => 1,
            InputRefusal::CountOutOfRange => 2,
        }
    }

    /// The refusal in words.
    pub fn message(&self) -> (r: String)
        ensures
            r@ == match self {
                InputRefusal::EmptyMessage => "Message cannot be empty"@,
                InputRefusal::CountOutOfRange => "Count must be between 1 and 100"@,
            },
    {
        match self {
            InputRefusal::EmptyMessage => "Message cannot be empty".to_owned(),
            InputRefusal::CountOutOfRange => "Count must be between 1 and 100".to_owned(),
        }
    }
}

/// The greeting for an input, at the host's time `timestamp`.
pub fn greet(input: &ExampleInput, timestamp: u64) -> (r: ExampleOutput)
    ensures
        r.result@ == "Hello, "@ + input.message@ + "!"@,
        r.timestamp == timestamp,
{
    let hello = joined("Hello, ", input.message.as_str());
    ExampleOutput { result: joined(hello.as_str(), "!"), timestamp }
}

/// The input's message as often as the input's count says, or once.
pub fn repeat(input: &ExampleInput) -> (r: ExampleOutput)
    ensures
        r.result@ == repeated(
            input.message@,
            match input.count {
                Some(n) => n as nat,
                None => 1nat,
            },
        ),
        r.timestamp == 0,
{
    let count = match input.count {
        Some(n) => n,
        None => 1,
    };
    let mut result = String::new();
    let mut i: u32 = 0;
    while i < count
        invariant
            i <= count,
            result@ == repeated(input.message@, i as nat),
        decreases count - i,
    {
        if i > 0 {
            proof {
                reveal_strlit(" ");
                assert(result@ + " "@ =~= result@.push(' '));
            }
            result.append(" ");
        } else {
            assert(result@ + input.message@ =~= input.message@);
        }
        result.append(input.message.as_str());
        i = i + 1;
    }
    ExampleOutput { result, timestamp: 0 }
}

/// Checks an input: its message must not be empty, and its count, where it
/// is given, must lie between 1 and 100.
pub fn validate(input: &ExampleInput) -> (r: Result<ExampleOutput, InputRefusal>)
    ensures
        match input_refusal(input.message@, input.count) {
            Some(why) => r == Err::<ExampleOutput, InputRefusal>(why),
            None => r is Ok && r->Ok_0.result@ == "Valid input: "@ + input.message@
                && r->Ok_0.timestamp == 0,
        },
{
    if input.message.as_str().is_empty() {
        return Err(InputRefusal::EmptyMessage);
    }
    match input.count {
        Some(count) => {
            if count == 0 || count > MAX_COUNT {
                return Err(InputRefusal::CountOutOfRange);
            }
        },
        None => {},
    }
    Ok(ExampleOutput { result: joined("Valid input: ", input.message.as_str()), timestamp: 0 })
}

} // verus!
