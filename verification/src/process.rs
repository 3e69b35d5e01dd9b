//! Running commands for the window's content.
//!
//! The library decides what to start and what the outcome means; starting a
//! process and waiting for it is left to the caller. A caller builds an
//! [`Invocation`], runs it, and hands back either the text of the error that
//! kept the process from starting, or an [`ExitReport`] of how it ended.
//!
//! Nothing is sanitised: the script or command runs as given, with the rights
//! of the user.

use std::borrow::Cow;
use vstd::prelude::*;
use vstd::string::*;
use vstd::utf8::{decode_utf8, valid_utf8};

verus! {

/// The scripting bridge.
pub const OSASCRIPT: &'static str = "/usr/bin/osascript";

/// The shell that runs commands, as a login shell.
pub const SHELL: &'static str = "/bin/zsh";

/// The script that asks for the bundle identifier of the frontmost
/// application.
pub const FRONTMOST_SCRIPT: &'static str =
    "\n    use framework \"AppKit\"\n    use scripting additions\n    set bid to (current application's NSWorkspace's sharedWorkspace()'s frontmostApplication()'s bundleIdentifier()) as text\n    return bid\n  ";

/// What goes before the exit status of a script that failed.
pub const SCRIPT_FAILURE: &'static str = "osascript exit: ";

/// What goes before the exit status of a shell command that failed.
pub const SHELL_FAILURE: &'static str = "command exited with status: ";

/// What goes before the exit status of a failed query for the frontmost
/// application.
pub const FRONTMOST_FAILURE: &'static str = "osascript failed: ";

/// A program and the arguments to start it with.
#[derive(Clone, Debug, PartialEq, Eq)]
pub struct Invocation {
    pub program: String,
    pub args: Vec<String>,
}

/// How a process ended: whether its exit status means success, and the exit
/// status as text, in its plain and in its debugging form.
#[derive(Clone, Debug, PartialEq, Eq)]
pub struct ExitReport {
    pub success: bool,
    pub display: String,
    pub debug: String,
}

/// How a process ended, and what it wrote to its standard output.
#[derive(Clone, Debug, PartialEq, Eq)]
pub struct ProcessOutput {
    pub exit: ExitReport,
    pub stdout: Vec<u8>,
}

impl Invocation {
    /// The arguments as text, in order.
    pub open spec fn arguments(self) -> Seq<Seq<char>> {
        self.args@.map_values(|arg: String| arg@)
    }
}

/// What `String::from_utf8_lossy` makes of a run of bytes.
pub uninterp spec fn utf8_lossy(bytes: Seq<u8>) -> Seq<char>;

/// Whether a character has the Unicode property White_Space, which is what
/// `str::trim` removes: the controls U+0009 to U+000D and U+0085, the spaces
/// U+0020, U+00A0, U+1680, U+2000 to U+200A, U+202F, U+205F and U+3000, and
/// the separators U+2028 and U+2029.
pub open spec fn is_white_space(c: char) -> bool {
    let code = c as u32;
    ||| 0x0009 <= code <= 0x000D
    ||| code == 0x0020
    ||| code == 0x0085
    ||| code == 0x00A0
    ||| code == 0x1680
    ||| 0x2000 <= code <= 0x200A
    ||| code == 0x2028
    ||| code == 0x2029
    ||| code == 0x202F
    ||| code == 0x205F
    ||| code == 0x3000
}

/// A text without the characters of `kind` that it begins with.
pub open spec fn stripped_start(text: Seq<char>, kind: spec_fn(char) -> bool) -> Seq<char>
    decreases text.len(),
{
    if text.len() > 0 && kind(text.first()) {
        stripped_start(text.drop_first(), kind)
    } else {
        text
    }
}

/// A text without the characters of `kind` that it ends with.
pub open spec fn stripped_end(text: Seq<char>, kind: spec_fn(char) -> bool) -> Seq<char>
    decreases text.len(),
{
    if text.len() > 0 && kind(text.last()) {
        stripped_end(text.drop_last(), kind)
    } else {
        text
    }
}

/// A text without the characters of `kind` at either end.
pub open spec fn stripped(text: Seq<char>, kind: spec_fn(char) -> bool) -> Seq<char> {
    stripped_end(stripped_start(text, kind), kind)
}

/// A text without the white space at either end.
pub open spec fn trimmed(text: Seq<char>) -> Seq<char> {
    stripped(text, |c: char| is_white_space(c))
}

/// `String::from_utf8_lossy`: the bytes as text, each run of bytes that is
/// no UTF-8 replaced by U+FFFD. Bytes that are UTF-8 throughout decode to the
/// text they encode.
#[verifier::external_body]
fn decode_lossy<'a>(bytes: &'a [u8]) -> (text: Cow<'a, str>)
    ensures
        text@ == utf8_lossy(bytes@),
        valid_utf8(bytes@) ==> text@ == decode_utf8(bytes@),
{
    String::from_utf8_lossy(bytes)
}

/// `str::trim`: the part of the text between its leading and its trailing
/// white space, neither included, where white space is what has the Unicode
/// property White_Space.
#[verifier::external_body]
fn trim<'a>(text: &'a str) -> (inner: &'a str)
    ensures
        inner@ == stripped(text@, |c: char| is_white_space(c)),
{
    text.trim()
}

/// Runs `script` through the scripting bridge: `osascript -e script`.
pub fn osascript_invocation(script: String) -> (invocation: Invocation)
    ensures
        invocation.program@ == OSASCRIPT@,
        invocation.arguments() == seq!["-e"@, script@],
{
    let mut args: Vec<String> = Vec::new();
    args.push("-e".to_owned());
    args.push(script);
    let invocation = Invocation { program: OSASCRIPT.to_owned(), args };
    assert(invocation.arguments() =~= seq!["-e"@, script@]);
    invocation
}

/// Runs `command` in the user's login shell: `zsh -lc command`.
pub fn shell_invocation(command: String) -> (invocation: Invocation)
    ensures
        invocation.program@ == SHELL@,
        invocation.arguments() == seq!["-lc"@, command@],
{
    let mut args: Vec<String> = Vec::new();
    args.push("-lc".to_owned());
    args.push(command);
    let invocation = Invocation { program: SHELL.to_owned(), args };
    assert(invocation.arguments() =~= seq!["-lc"@, command@]);
    invocation
}

/// Asks the scripting bridge for the bundle identifier of the frontmost
/// application: `osascript -l AppleScript -e` and [`FRONTMOST_SCRIPT`].
pub fn frontmost_invocation() -> (invocation: Invocation)
    ensures
        invocation.program@ == OSASCRIPT@,
        invocation.arguments() == seq!["-l"@, "AppleScript"@, "-e"@, FRONTMOST_SCRIPT@],
{
    let mut args: Vec<String> = Vec::new();
    args.push("-l".to_owned());
    args.push("AppleScript".to_owned());
    args.push("-e".to_owned());
    args.push(FRONTMOST_SCRIPT.to_owned());
    let invocation = Invocation { program: OSASCRIPT.to_owned(), args };
    assert(invocation.arguments() =~= seq!["-l"@, "AppleScript"@, "-e"@, FRONTMOST_SCRIPT@]);
    invocation
}

/// The outcome of a script started by [`osascript_invocation`]. A process
/// that did not start fails with the text of the error that kept it from
/// starting; one that ended in failure fails with [`SCRIPT_FAILURE`] and its
/// exit status in debugging form; any other succeeds.
pub fn run_osascript(outcome: Result<ExitReport, String>) -> (result: Result<(), String>)
    ensures
        outcome matches Err(error) ==> result == Err::<(), String>(error),
        outcome matches Ok(report) ==> report.success ==> result is Ok,
        outcome matches Ok(report) ==> !report.success ==> (result matches Err(text) && text@
            == SCRIPT_FAILURE@ + report.debug@),
{
    match outcome {
        Err(error) => Err(error),
        Ok(report) => {
            if report.success {
                Ok(())
            } else {
                Err(SCRIPT_FAILURE.to_owned().concat(report.debug.as_str()))
            }
        },
    }
}

/// The outcome of a command started by [`shell_invocation`]. A process that
/// did not start fails with the text of the error that kept it from starting;
/// one that ended in failure fails with [`SHELL_FAILURE`] and its exit status
/// in plain form; any other succeeds.
pub fn run_shell(outcome: Result<ExitReport, String>) -> (result: Result<(), String>)
    ensures
        outcome matches Err(error) ==> result == Err::<(), String>(error),
        outcome matches Ok(report) ==> report.success ==> result is Ok,
        outcome matches Ok(report) ==> !report.success ==> (result matches Err(text) && text@
            == SHELL_FAILURE@ + report.display@),
{
    match outcome {
        Err(error) => Err(error),
        Ok(report) => {
            if report.success {
                Ok(())
            } else {
                Err(SHELL_FAILURE.to_owned().concat(report.display.as_str()))
            }
        },
    }
}

/// The outcome of the query started by [`frontmost_invocation`]. A process
/// that did not start fails with the text of the error that kept it from
/// starting; one that ended in failure fails with [`FRONTMOST_FAILURE`] and
/// its exit status in debugging form; any other yields what it wrote to
/// standard output, read as UTF-8 with replacement, without the white space
/// at either end. Output that is UTF-8 throughout is read as the text it
/// encodes.
pub fn frontmost_bundle_id(outcome: Result<ProcessOutput, String>) -> (result: Result<
    String,
    String,
>)
    ensures
        outcome matches Err(error) ==> result == Err::<String, String>(error),
        outcome matches Ok(output) ==> output.exit.success ==> (result matches Ok(id) && id@
            == trimmed(utf8_lossy(output.stdout@))),
        outcome matches Ok(output) ==> output.exit.success && valid_utf8(output.stdout@) ==> (
        result matches Ok(id) && id@ == trimmed(decode_utf8(output.stdout@))),
        outcome matches Ok(output) ==> !output.exit.success ==> (result matches Err(text) && text@
            == FRONTMOST_FAILURE@ + output.exit.debug@),
{
    match outcome {
        Err(error) => Err(error),
        Ok(output) => {
            if !output.exit.success {
                Err(FRONTMOST_FAILURE.to_owned().concat(output.exit.debug.as_str()))
            } else {
                let inner = match decode_lossy(output.stdout.as_slice()) {
                    Cow::Borrowed(text) => trim(text).to_owned(),
                    Cow::Owned(text) => trim(text.as_str()).to_owned(),
                };
                Ok(inner)
            }
        },
    }
}

} // verus!
