//! What the program was started for.

use vstd::prelude::*;
use vstd::string::StringExecFns;
use crate::words::string_views;

verus! {

/// What the program was started for.
#[derive(Debug, PartialEq, Eq)]
pub enum Mode {
    /// The interactive view.
    Tui,
    /// The command shell.
    Shell,
    /// Scanning the music library under `music_dir` into the catalog.
    Scan { music_dir: String },
    /// Nothing the program knows: it says how `program` is to be called.
    Usage { program: String },
    /// Not even the program's own name was given.
    NoProgram,
}

/// The mathematical value of a [`Mode`].
pub enum ModeView {
    Tui,
    Shell,
    Scan { music_dir: Seq<char> },
    Usage { program: Seq<char> },
    NoProgram,
}

impl View for Mode {
    type V = ModeView;

    open spec fn view(&self) -> ModeView {
        match self {
            Mode::Tui => ModeView::Tui,
            Mode::Shell => ModeView::Shell,
            Mode::Scan { music_dir } => ModeView::Scan { music_dir: music_dir@ },
            Mode::Usage { program } => ModeView::Usage { program: program@ },
            Mode::NoProgram => ModeView::NoProgram,
        }
    }
}

/// Why the arguments do not say what to do.
#[derive(Clone, Copy, Debug, PartialEq, Eq, Structural)]
pub enum ModeError {
    /// `scan` without a directory to scan.
    MissingMusicDir,
}

/// The mode that the arguments `args` ask for, the program's name first:
/// the word after the name picks the mode, and `scan` takes the directory
/// after it. Anything else, or no word at all, asks for the usage line.
pub open spec fn mode_of(args: Seq<Seq<char>>) -> Result<ModeView, ModeError> {
    if args.len() == 0 {
        Ok(ModeView::NoProgram)
    } else if args.len() >= 2 && args[1] == "tui"@ {
        Ok(ModeView::Tui)
    } else if args.len() >= 2 && args[1] == "shell"@ {
        Ok(ModeView::Shell)
    } else if args.len() >= 2 && args[1] == "scan"@ {
        if args.len() >= 3 {
            Ok(ModeView::Scan { music_dir: args[2] })
        } else {
            Err(ModeError::MissingMusicDir)
        }
    } else {
        Ok(ModeView::Usage { program: args[0] })
    }
}

/// The line that says how `program` is to be called.
pub open spec fn usage_text(program: Seq<char>) -> Seq<char> {
    "Usage: "@ + program + " <tui> | <shell> | <scan> <path_to_music_library>"@
}

/// The line that says how `program` is to be called.
pub fn usage(program: &str) -> (line: String)
    ensures
        line@ == usage_text(program@),
{
    let mut line = String::from_str("Usage: ");
    line.append(program);
    line.append(" <tui> | <shell> | <scan> <path_to_music_library>");
    line
}

/// Reads the program's arguments, its own name first.
pub fn basic_mode(args: &[String]) -> (mode: Result<Mode, ModeError>)
    ensures
        match mode {
            Ok(mode) => mode_of(string_views(args@)) == Ok::<ModeView, ModeError>(mode@),
            Err(error) => mode_of(string_views(args@)) == Err::<ModeView, ModeError>(error),
        },
{
    if args.len() == 0 {
        return Ok(Mode::NoProgram);
    }
    if args.len() >= 2 {
        let word = &args[1];
        if *word == String::from_str("tui") {
            return Ok(Mode::Tui);
        } else if *word == String::from_str("shell") {
            return Ok(Mode::Shell);
        } else if *word == String::from_str("scan") {
            if args.len() >= 3 {
                return Ok(Mode::Scan { music_dir: args[2].clone() });
            } else {
                return Err(ModeError::MissingMusicDir);
            }
        }
    }
    Ok(Mode::Usage { program: args[0].clone() })
}

} // verus!
