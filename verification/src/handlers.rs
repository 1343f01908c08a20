//! What the host answers when the engine calls back: the text of an error
//! report, and what becomes of a file that was asked for. Also what the
//! host makes of the engine's answer to a request to run or compile.
//!
//! Printing, reading and the calls themselves are not done here: this is
//! what is decided before and after them.

use vstd::prelude::*;
use vstd::string::StringExecFns;
use crate::bt_object::Module;
use crate::error::Error;
use crate::wrappers::find_nul;
use crate::wrappers::is_nul_free;

verus! {

/// The engine's number for an error met while parsing.
pub const ERROR_PARSE: u32 = 0;

/// The engine's number for an error met while compiling.
pub const ERROR_COMPILE: u32 = 1;

/// The engine's number for an error met while running.
pub const ERROR_RUNTIME: u32 = 2;

/// The stage at which the engine met an error.
#[derive(Debug, Clone, Copy, PartialEq, Eq, Structural)]
pub enum ErrorKind {
    Parse,
    Compile,
    Runtime,
    Unknown,
}

impl ErrorKind {
    /// The kind that the engine's number `kind` stands for.
    pub open spec fn of_raw(kind: u32) -> ErrorKind {
        if kind == 0 {
            ErrorKind::Parse
        } else if kind == 1 {
            ErrorKind::Compile
        } else if kind == 2 {
            ErrorKind::Runtime
        } else {
            ErrorKind::Unknown
        }
    }

    /// The characters of the label of this kind.
    pub open spec fn label_text(self) -> Seq<char> {
        match self {
            ErrorKind::Parse => "Parse Error"@,
            ErrorKind::Compile => "Compile Error"@,
            ErrorKind::Runtime => "Runtime Error"@,
            ErrorKind::Unknown => "Unknown Error"@,
        }
    }

    /// The kind that the engine's number `kind` stands for; every other
    /// number stands for `Unknown`.
    pub fn from_raw(kind: u32) -> (error_kind: Self)
        ensures
            error_kind == Self::of_raw(kind),
    {
        if kind == ERROR_PARSE {
            ErrorKind::Parse
        } else if kind == ERROR_COMPILE {
            ErrorKind::Compile
        } else if kind == ERROR_RUNTIME {
            ErrorKind::Runtime
        } else {
            ErrorKind::Unknown
        }
    }

    /// The label that a report of an error of this kind starts with.
    pub fn label(&self) -> (label: &'static str)
        ensures
            label@ == self.label_text(),
    {
        match self {
            ErrorKind::Parse => "Parse Error",
            ErrorKind::Compile => "Compile Error",
            ErrorKind::Runtime => "Runtime Error",
            ErrorKind::Unknown => "Unknown Error",
        }
    }
}

/// The character of the decimal digit `digit`.
pub open spec fn digit_char(digit: nat) -> Seq<char> {
    if digit == 0 {
        "0"@
    } else if digit == 1 {
        "1"@
    } else if digit == 2 {
        "2"@
    } else if digit == 3 {
        "3"@
    } else if digit == 4 {
        "4"@
    } else if digit == 5 {
        "5"@
    } else if digit == 6 {
        "6"@
    } else if digit == 7 {
        "7"@
    } else if digit == 8 {
        "8"@
    } else {
        "9"@
    }
}

/// The decimal digits of `n`, without leading zeros.
pub open spec fn decimal(n: nat) -> Seq<char>
    decreases n,
{
    if n < 10 {
        digit_char(n)
    } else {
        decimal(n / 10) + digit_char(n % 10)
    }
}

/// The text of the report of an error: its kind, the module it arose in,
/// what the engine says of it, and the line and column, both counted from
/// one. A module or a message that the engine did not give, or gave in
/// bytes that are no text, is reported as unknown.
pub open spec fn report_text(
    kind: ErrorKind,
    module: Option<Seq<char>>,
    message: Option<Seq<char>>,
    line: u16,
    col: u16,
) -> Seq<char> {
    kind.label_text() + " in "@ + (match module {
        Some(text) => text,
        None => "unknown"@,
    }) + ": "@ + (match message {
        Some(text) => text,
        None => "unknown error"@,
    }) + " (line "@ + decimal(line as nat) + ", col "@ + decimal(col as nat) + ")"@
}

/// The text of one decimal digit.
pub fn digit_text(digit: u16) -> (text: &'static str)
    requires
        digit < 10,
    ensures
        text@ == digit_char(digit as nat),
{
    if digit == 0 {
        "0"
    } else if digit == 1 {
        "1"
    } else if digit == 2 {
        "2"
    } else if digit == 3 {
        "3"
    } else if digit == 4 {
        "4"
    } else if digit == 5 {
        "5"
    } else if digit == 6 {
        "6"
    } else if digit == 7 {
        "7"
    } else if digit == 8 {
        "8"
    } else {
        "9"
    }
}

/// Append the decimal digits of `n` to `text`.
pub fn push_decimal(text: &mut String, n: u16)
    ensures
        final(text)@ == old(text)@ + decimal(n as nat),
    decreases n,
{
    if n >= 10 {
        push_decimal(text, n / 10);
    }
    text.append(digit_text(n % 10));
    assert(text@ =~= old(text)@ + decimal(n as nat));
}

/// Write the report of an error.
pub fn describe_error(
    kind: ErrorKind,
    module: Option<&str>,
    message: Option<&str>,
    line: u16,
    col: u16,
) -> (report: String)
    ensures
        report@ == report_text(
            kind,
            match module {
                Some(text) => Some(text@),
                None => None,
            },
            match message {
                Some(text) => Some(text@),
                None => None,
            },
            line,
            col,
        ),
{
    let mut report = String::new();
    report.append(kind.label());
    report.append(" in ");
    report.append(
        match module {
            Some(text) => text,
            None => "unknown",
        },
    );
    report.append(": ");
    report.append(
        match message {
            Some(text) => text,
            None => "unknown error",
        },
    );
    report.append(" (line ");
    push_decimal(&mut report, line);
    report.append(", col ");
    push_decimal(&mut report, col);
    report.append(")");
    assert(report@ =~= report_text(
        kind,
        match module {
            Some(text) => Some(text@),
            None => None,
        },
        match message {
            Some(text) => Some(text@),
            None => None,
        },
        line,
        col,
    ));
    report
}

/// What the engine gets when it asks for a file.
#[derive(Debug)]
pub enum FileRead {
    /// The source, without a nul byte in it, and a handle that stays open
    /// until the engine gives it back.
    Source(Vec<u8>),
    /// No source, and no handle left behind.
    Nothing,
}

/// Decide what the engine gets for a file it asked for. `asked` says
/// whether the request named a path, as text, and a place for the handle;
/// `opened` whether the file could be opened; `contents` is what was read
/// from it, if reading went well.
///
/// The engine gets the source and a handle, or neither: where no source
/// comes of it, a handle that was opened has to be closed again.
pub fn settle_file_read(asked: bool, opened: bool, contents: Option<Vec<u8>>) -> (outcome: (
    FileRead,
    bool,
))
    ensures
        outcome.0 matches FileRead::Source(source) ==> asked && opened && contents == Some(source)
            && is_nul_free(source@),
        outcome.0 is Source <==> asked && opened && contents is Some && is_nul_free(contents->0@),
        outcome.1 == (opened && outcome.0 is Nothing),
{
    if !asked || !opened {
        return (FileRead::Nothing, opened);
    }
    match contents {
        Some(source) => {
            if find_nul(source.as_slice()).is_some() {
                (FileRead::Nothing, true)
            } else {
                (FileRead::Source(source), false)
            }
        },
        None => (FileRead::Nothing, true),
    }
}

/// Whether `err` is the error for a script that the engine failed to run.
pub open spec fn is_execution_failure(err: Error) -> bool {
    err matches Error::BoltError { msg } && msg@ == "Execution failed"@
}

/// Whether `err` is the error for a module that the engine failed to
/// compile.
pub open spec fn is_compile_failure(err: Error) -> bool {
    err matches Error::BoltError { msg } && msg@ == "Module failed to compile"@
}

/// What a request to run a script comes to, given whether the engine says
/// that it ran. What went wrong has been reported through the error
/// report by then.
pub fn run_outcome(ran: bool) -> (outcome: Result<(), Error>)
    ensures
        outcome is Ok <==> ran,
        outcome matches Err(err) ==> is_execution_failure(err),
{
    if ran {
        Ok(())
    } else {
        Err(Error::bolt("Execution failed"))
    }
}

/// What a request to compile a module comes to, given the address of the
/// module that the engine made, null where it made none.
pub fn compile_outcome(module: usize) -> (outcome: Result<Module, Error>)
    ensures
        outcome is Ok <==> module != 0,
        outcome matches Ok(made) ==> made == (Module { ptr: module, name: None, path: None }),
        outcome matches Err(err) ==> is_compile_failure(err),
{
    match Module::from_raw(module) {
        Some(made) => Ok(made),
        None => Err(Error::bolt("Module failed to compile")),
    }
}

} // verus!
