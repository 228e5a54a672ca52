//! Running the external converter on one audio file.
//!
//! The library plans the invocation and judges its outcome; the caller
//! spawns the process in between and blocks until it has ended. There is
//! one attempt, no timeout and no retry.

use vstd::prelude::*;
use vstd::string::StringExecFns;
use crate::error::{message_of, CommandError, ErrorModel};
use crate::text::{lossy_text, lossy_utf8, parent_dir, path_parent, trim_of, trimmed};

verus! {

/// The command line of one converter run, and where to run it.
#[derive(Debug)]
pub struct ProcessPlan {
    /// The program to launch.
    pub program: String,
    /// Its arguments, in order.
    pub args: Vec<String>,
    /// The directory the process starts in.
    pub working_dir: String,
}

/// What became of a converter run.
#[derive(Debug)]
pub enum ProcessOutcome {
    /// The process could not be started; holds the system's description.
    StartFailed(String),
    /// The process ended; holds whether its exit status reports success and
    /// the raw bytes it wrote to its two output streams.
    Exited { success: bool, stdout: Vec<u8>, stderr: Vec<u8> },
}

/// The arguments handed to the launcher: the `convert` subcommand of the
/// converter, the source file, the output directory behind `-o`, and the
/// drum-separation flag only when it is asked for.
pub open spec fn converter_args_of(
    audio_file: Seq<char>,
    output_dir: Seq<char>,
    separate_drums: bool,
) -> Seq<Seq<char>> {
    let fixed = seq!["run"@, "music-tutor"@, "convert"@, audio_file, "-o"@, output_dir];
    if separate_drums {
        fixed.push("--drum-sep"@)
    } else {
        fixed
    }
}

/// The directory in which the converter runs for a given grandparent of
/// the output directory: that grandparent, or the current directory when
/// there is none or when it is the empty path, which is how a relative
/// path spells the directory it starts from.
pub open spec fn working_dir_of(grandparent: Option<Seq<char>>) -> Seq<char> {
    match grandparent {
        Some(dir) => if dir.len() > 0 {
            dir
        } else {
            "."@
        },
        None => "."@,
    }
}

/// The parent of the parent of a path, if both steps exist.
pub open spec fn grandparent_of(path: Seq<char>) -> Option<Seq<char>> {
    match path_parent(path) {
        Some(parent) => path_parent(parent),
        None => None,
    }
}

/// The project root for an output directory of the shape
/// `<root>/output/<song>`.
pub open spec fn project_root_of(output_dir: Seq<char>) -> Seq<char> {
    working_dir_of(grandparent_of(output_dir))
}

/// What a run's outcome means for the caller: the output directory itself
/// after a successful exit, the converter's own diagnostics after a failed
/// one, and the system's description when nothing was started.
pub open spec fn process_result_of(output_dir: Seq<char>, outcome: ProcessOutcome) -> Result<
    Seq<char>,
    ErrorModel,
> {
    match outcome {
        ProcessOutcome::StartFailed(description) => Err(ErrorModel::ProcessStart(description@)),
        ProcessOutcome::Exited { success, stdout, stderr } => if success {
            Ok(output_dir)
        } else {
            Err(
                ErrorModel::ProcessFailed {
                    stdout: trim_of(lossy_utf8(stdout@)),
                    stderr: trim_of(lossy_utf8(stderr@)),
                },
            )
        },
    }
}

/// Builds the converter's argument list.
pub fn converter_args(audio_file: &str, output_dir: &str, separate_drums: bool) -> (args: Vec<
    String,
>)
    ensures
        args.deep_view() == converter_args_of(audio_file@, output_dir@, separate_drums),
{
    let mut args: Vec<String> = Vec::new();
    args.push(String::from_str("run"));
    args.push(String::from_str("music-tutor"));
    args.push(String::from_str("convert"));
    args.push(String::from_str(audio_file));
    args.push(String::from_str("-o"));
    args.push(String::from_str(output_dir));
    if separate_drums {
        args.push(String::from_str("--drum-sep"));
    }
    assert(args.deep_view() =~= converter_args_of(audio_file@, output_dir@, separate_drums));
    args
}

/// Chooses the working directory once the grandparent of the output
/// directory is known. The choice is never the empty path, in which no
/// process could be started.
pub fn working_dir(grandparent: Option<String>) -> (dir: String)
    ensures
        dir@ == working_dir_of(
            match grandparent {
                Some(g) => Some(g@),
                None => None,
            },
        ),
        dir@.len() > 0,
{
    proof {
        reveal_strlit(".");
    }
    match grandparent {
        Some(dir) => if dir.as_str().is_empty() {
            String::from_str(".")
        } else {
            dir
        },
        None => String::from_str("."),
    }
}

/// Derives the project root from the output directory by going up two
/// levels, and falls back to the current directory when either step is
/// unavailable or when the second step ends at the empty path.
pub fn project_root(output_dir: &str) -> (root: String)
    ensures
        root@ == project_root_of(output_dir@),
        root@.len() > 0,
{
    let grandparent = match parent_dir(output_dir) {
        Some(parent) => parent_dir(parent.as_str()),
        None => None,
    };
    working_dir(grandparent)
}

/// Plans the converter run for one audio file: the launcher, its
/// arguments, and the project root as working directory.
pub fn process_song_plan(audio_file: &str, output_dir: &str, separate_drums: bool) -> (plan:
    ProcessPlan)
    ensures
        plan.program@ == "uv"@,
        plan.args.deep_view() == converter_args_of(audio_file@, output_dir@, separate_drums),
        plan.working_dir@ == project_root_of(output_dir@),
        plan.working_dir@.len() > 0,
{
    ProcessPlan {
        program: String::from_str("uv"),
        args: converter_args(audio_file, output_dir, separate_drums),
        working_dir: project_root(output_dir),
    }
}

/// Judges the outcome of the planned run. A successful exit hands back
/// `output_dir` unchanged; any other outcome is an error.
pub fn process_song(output_dir: &str, outcome: ProcessOutcome) -> (result: Result<
    String,
    CommandError,
>)
    ensures
        outcome matches ProcessOutcome::Exited { success: true, .. } ==> result is Ok
            && result->Ok_0@ == output_dir@,
        match result {
            Ok(dir) => process_result_of(output_dir@, outcome) == Ok::<Seq<char>, ErrorModel>(dir@),
            Err(e) => process_result_of(output_dir@, outcome) == Err::<Seq<char>, ErrorModel>(e@),
        },
{
    match outcome {
        ProcessOutcome::StartFailed(description) => Err(CommandError::ProcessStart(description)),
        ProcessOutcome::Exited { success, stdout, stderr } => {
            if success {
                Ok(String::from_str(output_dir))
            } else {
                let out = lossy_text(&stdout);
                let err = lossy_text(&stderr);
                Err(
                    CommandError::ProcessFailed {
                        stdout: trimmed(out.as_str()),
                        stderr: trimmed(err.as_str()),
                    },
                )
            }
        },
    }
}

/// A successful exit answers with exactly the given output directory,
/// whatever the converter wrote. A failed exit answers with an error whose
/// message holds what the converter wrote to its standard output and,
/// behind it, to its standard error, each without surrounding whitespace.
pub proof fn lemma_process_result(output_dir: Seq<char>, outcome: ProcessOutcome)
    requires
        outcome is Exited,
    ensures
        outcome->success ==> process_result_of(output_dir, outcome) == Ok::<
            Seq<char>,
            ErrorModel,
        >(output_dir),
        !outcome->success ==> ({
            let out = trim_of(lossy_utf8(outcome->stdout@));
            let err = trim_of(lossy_utf8(outcome->stderr@));
            let message = message_of(process_result_of(output_dir, outcome)->Err_0);
            &&& process_result_of(output_dir, outcome) is Err
            &&& message.len() == 20 + out.len() + err.len()
            &&& message.subrange(19, 19 + out.len() as int) == out
            &&& message.subrange(20 + out.len() as int, message.len() as int) == err
        }),
{
    reveal_strlit("Processing failed:\n");
    reveal_strlit("\n");
    if !outcome->success {
        let out = trim_of(lossy_utf8(outcome->stdout@));
        let err = trim_of(lossy_utf8(outcome->stderr@));
        let message = message_of(process_result_of(output_dir, outcome)->Err_0);
        assert(message.subrange(19, 19 + out.len() as int) =~= out);
        assert(message.subrange(20 + out.len() as int, message.len() as int) =~= err);
    }
}

} // verus!
