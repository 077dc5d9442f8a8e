//! What the read-eval-print loop prints before it starts reading: errors of
//! the files and the expression given to evaluate first, and the banner.

use vstd::prelude::*;

verus! {

/// What evaluating a piece of code printed.
pub enum EvaluationOutput {
    /// The value, as printed.
    Value(String),
    /// The error, as printed.
    Error(String),
}

/// The message for a file given with `--eval-file` that could not be read
/// or whose evaluation failed.
pub open spec fn eval_file_error(eval_file: Seq<char>, error: Seq<char>) -> Seq<char> {
    "Error in --eval-file file \""@ + eval_file + "\": "@ + error
}

/// The message for an expression given with `--eval` whose evaluation
/// failed.
pub open spec fn eval_flag_error(error: Seq<char>) -> Seq<char> {
    "Error in --eval flag: "@ + error
}

/// What to print for a file given with `--eval-file`, from either the
/// output of evaluating it or the error that reading it gave: only errors
/// are printed.
pub fn eval_file_report(eval_file: &str, result: Result<EvaluationOutput, String>) -> (report:
    Option<String>)
    ensures
        result matches Ok(EvaluationOutput::Value(_)) ==> report is None,
        result matches Ok(EvaluationOutput::Error(error)) ==> report matches Some(text)
            && text@ == eval_file_error(eval_file@, error@),
        result matches Err(error) ==> report matches Some(text) && text@ == eval_file_error(
            eval_file@,
            error@,
        ),
{
    let error = match result {
        Ok(EvaluationOutput::Value(_)) => {
            return None;
        },
        Ok(EvaluationOutput::Error(error)) => error,
        Err(error) => error,
    };
    let text = String::from_str("Error in --eval-file file \"").concat(eval_file).concat(
        "\": ",
    ).concat(error.as_str());
    Some(text)
}

/// What to print for the expression given with `--eval`: only an error is
/// printed.
pub fn eval_flag_report(output: EvaluationOutput) -> (report: Option<String>)
    ensures
        output is Value ==> report is None,
        output matches EvaluationOutput::Error(error) ==> report matches Some(text) && text@
            == eval_flag_error(error@),
{
    match output {
        EvaluationOutput::Value(_) => None,
        EvaluationOutput::Error(error) => Some(
            String::from_str("Error in --eval flag: ").concat(error.as_str()),
        ),
    }
}

/// One line of the banner.
pub struct BannerLine {
    pub text: String,
    /// Printed as a warning (in yellow where the terminal has colors).
    pub warning: bool,
}

/// The banner's first line: the name and version.
pub open spec fn version_line(version: Seq<char>) -> Seq<char> {
    "Deno "@ + version
}

/// The banner's second line.
pub open spec fn exit_hint() -> Seq<char> {
    "exit using ctrl+d, ctrl+c, or close()"@
}

/// The warning line, shown when the loop was started as the default
/// command.
pub open spec fn permissions_warning() -> Seq<char> {
    "REPL is running with all permissions allowed."@
}

/// The line after the warning.
pub open spec fn permissions_hint() -> Seq<char> {
    "To specify permissions, run `deno repl` with allow flags."@
}

/// The banner printed when the loop starts: nothing when quiet; otherwise
/// the version and how to leave, and, when the loop is the default command,
/// a warning that all permissions are allowed and how to restrict them.
pub fn startup_banner(version: &str, quiet: bool, is_default_command: bool) -> (banner: Vec<
    BannerLine,
>)
    ensures
        quiet ==> banner@.len() == 0,
        !quiet ==> {
            &&& banner@.len() == if is_default_command {
                4int
            } else {
                2int
            }
            &&& banner@[0].text@ == version_line(version@) && !banner@[0].warning
            &&& banner@[0].text@.len() == version@.len() + 5
            &&& banner@[0].text@.subrange(5, banner@[0].text@.len() as int) == version@
            &&& banner@[1].text@ == exit_hint() && !banner@[1].warning
            &&& is_default_command ==> {
                &&& banner@[2].text@ == permissions_warning() && banner@[2].warning
                &&& banner@[3].text@ == permissions_hint() && !banner@[3].warning
            }
        },
{
    let mut banner: Vec<BannerLine> = Vec::new();
    if quiet {
        return banner;
    }
    banner.push(
        BannerLine { text: String::from_str("Deno ").concat(version), warning: false },
    );
    proof {
        lemma_version_line(version@);
    }
    banner.push(
        BannerLine {
            text: String::from_str("exit using ctrl+d, ctrl+c, or close()"),
            warning: false,
        },
    );
    if is_default_command {
        banner.push(
            BannerLine {
                text: String::from_str("REPL is running with all permissions allowed."),
                warning: true,
            },
        );
        banner.push(
            BannerLine {
                text: String::from_str(
                    "To specify permissions, run `deno repl` with allow flags.",
                ),
                warning: false,
            },
        );
    }
    banner
}

/// The banner's first line is `Deno ` followed by the whole version.
pub proof fn lemma_version_line(version: Seq<char>)
    ensures
        version_line(version).len() == version.len() + 5,
        version_line(version).subrange(0, 5) == seq!['D', 'e', 'n', 'o', ' '],
        version_line(version).subrange(5, version_line(version).len() as int) == version,
{
    reveal_strlit("Deno ");
    assert(version_line(version).subrange(0, 5) =~= seq!['D', 'e', 'n', 'o', ' ']);
    assert(version_line(version).subrange(5, version_line(version).len() as int) =~= version);
}

/// The report for an `--eval-file` file holds the whole file name between
/// quotes, then the whole error: 27 characters of
/// `Error in --eval-file file "`, the name, the 3 characters `": `, the
/// error.
pub proof fn lemma_eval_file_error(eval_file: Seq<char>, error: Seq<char>)
    ensures
        ({
            let text = eval_file_error(eval_file, error);
            &&& text.len() == 27 + eval_file.len() as int + 3 + error.len()
            &&& text.subrange(0, 27) == "Error in --eval-file file \""@
            &&& text.subrange(27, 27 + eval_file.len() as int) == eval_file
            &&& text.subrange(27 + eval_file.len() as int, 30 + eval_file.len() as int) == seq!['"', ':', ' ']
            &&& text.subrange(30 + eval_file.len() as int, text.len() as int) == error
        }),
{
    reveal_strlit("Error in --eval-file file \"");
    reveal_strlit("\": ");
    let text = eval_file_error(eval_file, error);
    assert(text.subrange(0, 27) =~= "Error in --eval-file file \""@);
    assert(text.subrange(27, 27 + eval_file.len() as int) =~= eval_file);
    assert(text.subrange(27 + eval_file.len() as int, 30 + eval_file.len() as int) =~= seq!['"', ':', ' ']);
    assert(text.subrange(30 + eval_file.len() as int, text.len() as int) =~= error);
}

/// The report for `--eval` is the 22 characters `Error in --eval flag: `
/// followed by the whole error.
pub proof fn lemma_eval_flag_error(error: Seq<char>)
    ensures
        eval_flag_error(error).len() == 22 + error.len(),
        eval_flag_error(error).subrange(0, 22) == "Error in --eval flag: "@,
        eval_flag_error(error).subrange(22, eval_flag_error(error).len() as int) == error,
{
    reveal_strlit("Error in --eval flag: ");
    assert(eval_flag_error(error).subrange(0, 22) =~= "Error in --eval flag: "@);
    assert(eval_flag_error(error).subrange(22, eval_flag_error(error).len() as int) =~= error);
}

/// The banner's fixed lines.
pub proof fn lemma_banner_texts()
    ensures
        exit_hint() == "exit using ctrl+d, ctrl+c, or close()"@,
        permissions_warning() == "REPL is running with all permissions allowed."@,
        permissions_hint() == "To specify permissions, run `deno repl` with allow flags."@,
{
}

} // verus!
