//! The external programs of the burn pipeline and the exact command line of each.
//!
//! The three programs are driven through fixed command lines; a change to
//! any flag or to the order of the arguments changes what ends up on the disc.

use vstd::prelude::*;
use vstd::string::StringExecFns;
use crate::words::string_views;

verus! {

/// Where the disc writer finds its drive.
pub const CD_WRITER_DEVICE: &'static str = "/dev/sr0";

/// One run of an external program.
#[derive(Debug, PartialEq, Eq)]
pub struct Invocation {
    pub program: String,
    pub args: Vec<String>,
    /// The directory to run in; `None` leaves the caller's directory.
    pub working_dir: Option<String>,
}

/// The mathematical value of an [`Invocation`].
pub struct InvocationView {
    pub program: Seq<char>,
    pub args: Seq<Seq<char>>,
    pub working_dir: Option<Seq<char>>,
}

impl View for Invocation {
    type V = InvocationView;

    open spec fn view(&self) -> InvocationView {
        InvocationView {
            program: self.program@,
            args: string_views(self.args@),
            working_dir: match self.working_dir {
                Some(dir) => Some(dir@),
                None => None,
            },
        }
    }
}

impl Clone for Invocation {
    fn clone(&self) -> (copy: Self)
        ensures
            copy@ == self@,
    {
        let args = self.args.clone();
        assert(string_views(args@) == string_views(self.args@));
        let working_dir = match &self.working_dir {
            Some(dir) => Some(dir.clone()),
            None => None,
        };
        Invocation { program: self.program.clone(), args, working_dir }
    }
}

/// The transcoder's command line: read `input`, overwrite an existing output,
/// resample to 44100 Hz, two channels, signed 16-bit samples, write to `output`.
pub open spec fn transcoder_call(input: Seq<char>, output: Seq<char>) -> InvocationView {
    InvocationView {
        program: "ffmpeg"@,
        args: seq![
            "-i"@,
            input,
            "-y"@,
            "-ar"@,
            "44100"@,
            "-ac"@,
            "2"@,
            "-sample_fmt"@,
            "s16"@,
            output,
        ],
        working_dir: None,
    }
}

/// The normalizer's command line: batch mode over `files`, run inside `scratch`.
pub open spec fn normalizer_call(scratch: Seq<char>, files: Seq<Seq<char>>) -> InvocationView {
    InvocationView { program: "normalize"@, args: seq!["-b"@] + files, working_dir: Some(scratch) }
}

/// The disc writer's command line: verbose, eject when done, disc-at-once,
/// pad to the block size, the drive, audio mode, then `files` in disc order;
/// run inside `scratch`.
pub open spec fn writer_call(
    scratch: Seq<char>,
    device: Seq<char>,
    files: Seq<Seq<char>>,
) -> InvocationView {
    InvocationView {
        program: "wodim"@,
        args: seq!["-v"@, "-eject"@, "-dao"@, "-pad"@, "dev="@, device, "-audio"@] + files,
        working_dir: Some(scratch),
    }
}

/// Builds the transcoder's command line.
pub fn transcoder_invocation(input: &str, output: &str) -> (call: Invocation)
    ensures
        call@ == transcoder_call(input@, output@),
{
    let mut args: Vec<String> = Vec::new();
    args.push(String::from_str("-i"));
    args.push(String::from_str(input));
    args.push(String::from_str("-y"));
    args.push(String::from_str("-ar"));
    args.push(String::from_str("44100"));
    args.push(String::from_str("-ac"));
    args.push(String::from_str("2"));
    args.push(String::from_str("-sample_fmt"));
    args.push(String::from_str("s16"));
    args.push(String::from_str(output));
    assert(string_views(args@) == transcoder_call(input@, output@).args);
    Invocation { program: String::from_str("ffmpeg"), args, working_dir: None }
}

/// Builds the normalizer's command line.
pub fn normalizer_invocation(scratch: &str, files: Vec<String>) -> (call: Invocation)
    ensures
        call@ == normalizer_call(scratch@, string_views(files@)),
{
    let ghost given = string_views(files@);
    let mut files = files;
    let mut args: Vec<String> = Vec::new();
    args.push(String::from_str("-b"));
    args.append(&mut files);
    assert(string_views(args@) == normalizer_call(scratch@, given).args);
    Invocation {
        program: String::from_str("normalize"),
        args,
        working_dir: Some(String::from_str(scratch)),
    }
}

/// Builds the disc writer's command line.
pub fn writer_invocation(scratch: &str, device: &str, files: Vec<String>) -> (call: Invocation)
    ensures
        call@ == writer_call(scratch@, device@, string_views(files@)),
{
    let ghost given = string_views(files@);
    let mut files = files;
    let mut args: Vec<String> = Vec::new();
    args.push(String::from_str("-v"));
    args.push(String::from_str("-eject"));
    args.push(String::from_str("-dao"));
    args.push(String::from_str("-pad"));
    args.push(String::from_str("dev="));
    args.push(String::from_str(device));
    args.push(String::from_str("-audio"));
    args.append(&mut files);
    assert(string_views(args@) == writer_call(scratch@, device@, given).args);
    Invocation {
        program: String::from_str("wodim"),
        args,
        working_dir: Some(String::from_str(scratch)),
    }
}

} // verus!
