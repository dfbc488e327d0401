//! Invocations of the AWS command line: what is run, and what its outcome means.

use vstd::prelude::*;
use vstd::utf8::{decode_utf8, valid_utf8};

use crate::error::{AppError, AppErrorView};
use crate::text::{copy_strings, texts};

verus! {

/// A program to run, with its arguments and the environment variables to set.
#[derive(Debug, Clone, PartialEq, Eq)]
pub struct CommandPlan {
    pub program: String,
    pub args: Vec<String>,
    pub envs: Vec<(String, String)>,
}

/// What became of a program that was to be run.
#[derive(Debug, Clone, PartialEq, Eq)]
pub enum CommandOutcome {
    /// It could not be started or waited for; the text says why.
    NotRun(String),
    /// It ended, having written these bytes.
    Finished { success: bool, stdout: Vec<u8>, stderr: Vec<u8> },
}

/// `name` and the value, or nothing without a value.
pub open spec fn flag(name: Seq<char>, value: Option<&str>) -> Seq<Seq<char>> {
    match value {
        Some(v) => seq![name, v@],
        None => Seq::empty(),
    }
}

/// The arguments of an `aws` invocation: the global flags, then `args`.
pub open spec fn aws_args(
    profile: Option<&str>,
    region: Option<&str>,
    args: Seq<&str>,
) -> Seq<Seq<char>> {
    flag("--profile"@, profile) + flag("--region"@, region) + args.map_values(|s: &str| s@)
}

/// The text that `bytes` decode to when each ill-formed part is replaced by
/// U+FFFD: what `String::from_utf8_lossy` returns.
pub uninterp spec fn utf8_lossy(bytes: Seq<u8>) -> Seq<char>;

/// What a finished or failed run amounts to.
pub open spec fn captured(
    program: Seq<char>,
    args: Seq<Seq<char>>,
    outcome: CommandOutcome,
) -> Result<Seq<char>, AppErrorView> {
    match outcome {
        CommandOutcome::NotRun(reason) => Err(AppErrorView::Io(reason@)),
        CommandOutcome::Finished { success, stdout, stderr } => if success {
            Ok(utf8_lossy(stdout@))
        } else {
            Err(AppErrorView::CommandFailed { program, args, stderr: utf8_lossy(stderr@) })
        },
    }
}

/// `String::from_utf8_lossy`: the named decoding, which on well-formed UTF-8 is
/// the text that the bytes encode.
#[verifier::external_body]
fn lossy_string(bytes: &[u8]) -> (r: String)
    ensures
        r@ == utf8_lossy(bytes@),
        valid_utf8(bytes@) ==> r@ == decode_utf8(bytes@),
{
    String::from_utf8_lossy(bytes).to_string()
}

/// The `aws` invocation for `args`, under the given profile and region where
/// there is one.
pub fn run_aws_cli(profile: Option<&str>, region: Option<&str>, args: &[&str]) -> (plan: CommandPlan)
    ensures
        plan.program@ == "aws"@,
        texts(plan.args@) == aws_args(profile, region, args@),
        plan.envs@.len() == 0,
{
    let mut final_args: Vec<String> = Vec::new();
    if let Some(p) = profile {
        final_args.push("--profile".to_string());
        final_args.push(p.to_string());
    }
    if let Some(r) = region {
        final_args.push("--region".to_string());
        final_args.push(r.to_string());
    }
    let ghost flags = flag("--profile"@, profile) + flag("--region"@, region);
    let ghost all = args@.map_values(|s: &str| s@);
    assert(texts(final_args@) =~= flags);
    let mut i: usize = 0;
    while i < args.len()
        invariant
            i <= args.len(),
            all == args@.map_values(|s: &str| s@),
            texts(final_args@) =~= flags + all.take(i as int),
        decreases args.len() - i,
    {
        let ghost before = texts(final_args@);
        let arg = args[i].to_string();
        assert(arg@ == all[i as int]);
        final_args.push(arg);
        assert(texts(final_args@) =~= before.push(all[i as int]));
        i = i + 1;
        assert(all.take(i as int) =~= all.take(i - 1).push(all[i - 1]));
    }
    assert(all.take(i as int) == all);
    CommandPlan { program: "aws".to_string(), args: final_args, envs: Vec::new() }
}

/// The text that a program wrote, or the error that its run amounts to. What it
/// wrote is decoded leniently, and exactly where it is well-formed.
pub fn run_capture(program: &str, args: &[String], outcome: &CommandOutcome) -> (r: Result<
    String,
    AppError,
>)
    ensures
        match captured(program@, texts(args@), *outcome) {
            Ok(text) => r matches Ok(s) && s@ == text,
            Err(error) => r matches Err(e) && e@ == error,
        },
        match *outcome {
            CommandOutcome::NotRun(_) => true,
            CommandOutcome::Finished { success, stdout, stderr } => if success {
                valid_utf8(stdout@) ==> (r matches Ok(s) && s@ == decode_utf8(stdout@))
            } else {
                valid_utf8(stderr@) ==> (r matches Err(e) && e@ == AppErrorView::CommandFailed {
                    program: program@,
                    args: texts(args@),
                    stderr: decode_utf8(stderr@),
                })
            },
        },
{
    match outcome {
        CommandOutcome::NotRun(reason) => Err(AppError::Io(reason.clone())),
        CommandOutcome::Finished { success, stdout, stderr } => {
            if *success {
                Ok(lossy_string(stdout.as_slice()))
            } else {
                Err(
                    AppError::CommandFailed {
                        program: program.to_string(),
                        args: copy_strings(args),
                        stderr: lossy_string(stderr.as_slice()),
                    },
                )
            }
        },
    }
}

/// The caller's arguments come last and unchanged, after the profile, if there is
/// one, and the region, if there is one.
pub proof fn caller_args_come_last(profile: Option<&str>, region: Option<&str>, args: Seq<&str>)
    ensures
        aws_args(profile, region, args).skip(
            (flag("--profile"@, profile) + flag("--region"@, region)).len() as int,
        ) == args.map_values(|s: &str| s@),
        profile matches Some(p) ==> aws_args(profile, region, args).take(2) == seq![
            "--profile"@,
            p@,
        ],
        region matches Some(r) ==> aws_args(profile, region, args).skip(
            flag("--profile"@, profile).len() as int,
        ).take(2) == seq!["--region"@, r@],
        profile is None && region is None ==> aws_args(profile, region, args) == args.map_values(
            |s: &str| s@,
        ),
{
    let given = args.map_values(|s: &str| s@);
    assert(aws_args(profile, region, args).skip(
        (flag("--profile"@, profile) + flag("--region"@, region)).len() as int,
    ) =~= given);
    if let Some(p) = profile {
        assert(aws_args(profile, region, args).take(2) =~= seq!["--profile"@, p@]);
    }
    if let Some(r) = region {
        assert(aws_args(profile, region, args).skip(
            flag("--profile"@, profile).len() as int,
        ).take(2) =~= seq!["--region"@, r@]);
    }
    if profile is None && region is None {
        assert(aws_args(profile, region, args) =~= given);
    }
}

/// An invocation has two arguments for the profile, if there is one, then two for the
/// region, if there is one, then each of the caller's, and no other.
pub proof fn arguments_stand_in_their_places(
    profile: Option<&str>,
    region: Option<&str>,
    args: Seq<&str>,
    i: int,
)
    ensures
        ({
            let all = aws_args(profile, region, args);
            let p: int = if profile is Some {
                2
            } else {
                0
            };
            let r: int = if region is Some {
                2
            } else {
                0
            };
            &&& all.len() == p + r + args.len()
            &&& profile matches Some(name) ==> all[0] == "--profile"@ && all[1] == name@
            &&& region matches Some(name) ==> all[p] == "--region"@ && all[p + 1] == name@
            &&& 0 <= i < args.len() ==> all[p + r + i] == args[i]@
        }),
{
}

/// A run amounts to text exactly if the program ended well, and then to all that it
/// wrote as output; where it ended badly the error names the program, each argument
/// and all that it wrote as errors, and where it did not run the error says why.
pub proof fn outcomes_are_told_apart(
    program: Seq<char>,
    args: Seq<Seq<char>>,
    outcome: CommandOutcome,
)
    ensures
        captured(program, args, outcome) is Ok <==> (outcome matches CommandOutcome::Finished {
            success,
            ..
        } && success),
        outcome matches CommandOutcome::Finished { success, stdout, stderr } ==> (if success {
            captured(program, args, outcome) == Ok::<Seq<char>, AppErrorView>(utf8_lossy(stdout@))
        } else {
            captured(program, args, outcome) == Err::<Seq<char>, AppErrorView>(
                AppErrorView::CommandFailed { program, args, stderr: utf8_lossy(stderr@) },
            )
        }),
        outcome matches CommandOutcome::NotRun(reason) ==> captured(program, args, outcome) == Err::<
            Seq<char>,
            AppErrorView,
        >(AppErrorView::Io(reason@)),
{
}

} // verus!
