//! The command line: an image path and a mode, and the usage error for
//! anything else.

use vstd::prelude::*;

verus! {

/// Which monitors are meant.
#[derive(Clone, Copy, Debug, PartialEq, Eq, Structural)]
pub enum Mode {
    /// Every monitor that the service knows.
    Every,
    /// The monitor under the pointer, and every monitor if that one cannot
    /// be told.
    Current,
}

/// What the command line asks for.
#[derive(Debug, PartialEq, Eq)]
pub struct Invocation {
    pub image_path: String,
    pub mode: Mode,
}

/// The command line does not have the image path and the mode, and nothing
/// else, after the program's name.
#[derive(Clone, Copy, Debug, PartialEq, Eq, Structural)]
pub struct UsageError {
    /// The number of arguments that were given, the program's name counted.
    pub given: usize,
}

/// The exit code of a run that ends with a usage error.
pub const USAGE_EXIT_CODE: i32 = 1;

/// The number of arguments of a proper command line, the program's name
/// counted.
pub const ARGUMENT_COUNT: usize = 3;

/// What `str::to_lowercase` makes of a text: its lowercase form by the
/// Unicode case mappings.
pub uninterp spec fn lowercase(text: Seq<char>) -> Seq<char>;

/// Calls `str::to_lowercase`. Trusted: the text that comes back is
/// `lowercase` of the text handed in, and depends on nothing else.
#[verifier::external_body]
fn str_to_lowercase(text: &str) -> (lowered: String)
    ensures
        lowered@ == lowercase(text@),
{
    text.to_lowercase()
}

/// The mode that a word in lowercase stands for: `current` asks for the
/// monitor under the pointer, and every other word, `every` among them, for
/// all monitors.
pub open spec fn mode_of(lowered: Seq<char>) -> Mode {
    if lowered == "current"@ {
        Mode::Current
    } else {
        Mode::Every
    }
}

/// Reads the mode from a word that is already in lowercase.
pub fn mode_from_lowercase(lowered: &str) -> (mode: Mode)
    ensures
        mode == mode_of(lowered@),
{
    if String::from_str(lowered) == String::from_str("current") {
        Mode::Current
    } else {
        Mode::Every
    }
}

/// Reads the mode from a word of the command line, whatever its case.
pub fn parse_mode(word: &str) -> (mode: Mode)
    ensures
        mode == mode_of(lowercase(word@)),
{
    let lowered = str_to_lowercase(word);
    mode_from_lowercase(lowered.as_str())
}

/// Reads the command line, the program's name at its head. Three arguments
/// are an invocation; any other number is a usage error and nothing else
/// is looked at.
pub fn parse_invocation(args: &Vec<String>) -> (parsed: Result<Invocation, UsageError>)
    ensures
        args@.len() == ARGUMENT_COUNT ==> parsed is Ok && parsed->Ok_0.image_path@ == args@[1]@
            && parsed->Ok_0.mode == mode_of(lowercase(args@[2]@)),
        args@.len() != ARGUMENT_COUNT ==> parsed == Err::<Invocation, UsageError>(
            UsageError { given: args@.len() as usize },
        ),
{
    if args.len() != ARGUMENT_COUNT {
        return Err(UsageError { given: args.len() });
    }
    Ok(Invocation { image_path: args[1].clone(), mode: parse_mode(args[2].as_str()) })
}

/// The usage message, as a sequence of characters.
pub open spec fn usage(program: Seq<char>) -> Seq<char> {
    "Usage: "@ + program + " <image_path> <every|current>"@
}

/// Writes the usage message for the program of this name.
pub fn usage_message(program: &str) -> (message: String)
    ensures
        message@ == usage(program@),
{
    let mut message = String::from_str("Usage: ");
    message.append(program);
    message.append(" <image_path> <every|current>");
    message
}

/// Whether the monitor under the pointer has to be resolved before the
/// wallpaper is applied.
pub fn needs_resolution(mode: Mode) -> (needed: bool)
    ensures
        needed == (mode == Mode::Current),
{
    match mode {
        Mode::Current => true,
        Mode::Every => false,
    }
}

} // verus!
