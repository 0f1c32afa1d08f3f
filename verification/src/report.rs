//! What is said to the user, and how the program ends.
use vstd::prelude::*;
use vstd::string::*;
use crate::text::{clone_texts, join2, join3, join4, same_text, texts};

verus! {

/// An error as it is shown: its icon, its text, and what may help.
pub struct ErrorReport {
    pub icon: String,
    pub message: String,
    pub suggestions: Vec<String>,
}

/// What an [`ErrorReport`] says.
pub struct ErrorReportView {
    pub icon: Seq<char>,
    pub message: Seq<char>,
    pub suggestions: Seq<Seq<char>>,
}

impl View for ErrorReport {
    type V = ErrorReportView;

    open spec fn view(&self) -> ErrorReportView {
        ErrorReportView {
            icon: self.icon@,
            message: self.message@,
            suggestions: texts(self.suggestions@),
        }
    }
}

/// The line for a suggestion.
pub open spec fn suggestion_line(s: Seq<char>) -> Seq<char> {
    "  -> "@ + s
}

/// The lines for an error: the icon and the text; and where something may help, an
/// empty line and a line for each suggestion.
pub open spec fn error_lines(err: ErrorReportView) -> Seq<Seq<char>> {
    let head = seq![err.icon + " "@ + err.message];
    if err.suggestions.len() == 0 {
        head
    } else {
        head.push(Seq::<char>::empty()) + err.suggestions.map_values(
            |s: Seq<char>| suggestion_line(s),
        )
    }
}

/// The lines in which an error is shown.
pub fn print_error(err: &ErrorReport) -> (r: Vec<String>)
    ensures
        texts(r@) == error_lines(err@),
        r.len() == (if err.suggestions.len() == 0 {
            1
        } else {
            err.suggestions.len() + 2
        }),
        r[0]@ == err.icon@ + " "@ + err.message@,
        err.suggestions.len() > 0 ==> r[1]@.len() == 0,
        forall|k: int|
            0 <= k < err.suggestions.len() ==> r[k + 2]@ == "  -> "@ + (
            #[trigger] err.suggestions[k])@,
{
    let mut r: Vec<String> = Vec::new();
    r.push(join3(err.icon.as_str(), " ", err.message.as_str()));
    let ghost head = seq![err@.icon + " "@ + err@.message];
    assert(texts(r@) =~= head);
    if err.suggestions.len() == 0 {
        assert(texts(r@)[0] == r[0]@);
        return r;
    }
    r.push(String::new());
    let ghost top = head.push(Seq::<char>::empty());
    assert(texts(r@) =~= top);
    for i in 0..err.suggestions.len()
        invariant
            top.len() == 2,
            texts(r@) =~= top + Seq::new(i as nat, |k: int| suggestion_line(err@.suggestions[k])),
    {
        let ghost before = r@;
        r.push(join2("  -> ", err.suggestions[i].as_str()));
        assert(texts(r@) =~= texts(before).push(suggestion_line(err@.suggestions[i as int])));
    }
    assert(texts(r@) =~= error_lines(err@));
    proof {
        assert(texts(r@)[0] == r[0]@);
        assert(texts(r@)[1] == r[1]@);
        assert forall|k: int| 0 <= k < err.suggestions.len() implies r[k + 2]@ == "  -> "@ + (
        #[trigger] err.suggestions[k])@ by {
            assert(texts(r@)[k + 2] == suggestion_line(err@.suggestions[k]));
        }
    }
    r
}

/// The lines that are shown where no subcommand was given.
pub fn no_command_lines(version: &str) -> (r: Vec<String>)
    ensures
        texts(r@) == seq![
            "opencli-rs v"@ + version@,
            "No command specified. Use --help for usage."@,
        ],
{
    let mut r: Vec<String> = Vec::new();
    r.push(join2("opencli-rs v", version));
    r.push("No command specified. Use --help for usage.".to_owned());
    assert(texts(r@) =~= seq![
        "opencli-rs v"@ + version@,
        "No command specified. Use --help for usage."@,
    ]);
    r
}

/// The line that is shown for a command that its site does not have.
pub fn unknown_command_line(site: &str, name: &str) -> (r: String)
    ensures
        r@ == "Unknown command: "@ + site@ + " "@ + name@,
{
    join4("Unknown command: ", site, " ", name)
}

/// The line that is shown once the token is kept.
pub fn token_saved_line(path: &str) -> (r: String)
    ensures
        r@ == "✅ Token saved to "@ + path@,
{
    join2("✅ Token saved to ", path)
}

/// The line that is shown where the token could not be kept.
pub fn token_not_saved_line(detail: &str) -> (r: String)
    ensures
        r@ == "❌ Failed to save token: "@ + detail@,
{
    join2("❌ Failed to save token: ", detail)
}

/// The line that is shown where the daemon does not start.
pub fn daemon_failure_line(detail: &str) -> (r: String)
    ensures
        r@ == "Failed to start daemon: "@ + detail@,
{
    join2("Failed to start daemon: ", detail)
}

/// The command line that asks for the help of a site.
pub fn site_help_args(site: &str) -> (r: Vec<String>)
    ensures
        texts(r@) == seq!["opencli-rs"@, site@, "--help"@],
{
    let mut r: Vec<String> = Vec::new();
    r.push("opencli-rs".to_owned());
    r.push(site.to_owned());
    r.push("--help".to_owned());
    assert(texts(r@) =~= seq!["opencli-rs"@, site@, "--help"@]);
    r
}

/// The code with which the program ends after an external program: that program's
/// own, or 1 where it has none.
pub fn external_exit_code(code: Option<i32>) -> (r: i32)
    ensures
        r == (match code {
            Some(c) => c,
            None => 1,
        }),
{
    match code {
        Some(c) => c,
        None => 1,
    }
}

/// How much is logged where the environment does not say: everything down to
/// debugging if verbose output is on, else warnings.
pub fn default_log_filter(verbose: bool) -> (r: &'static str)
    ensures
        r@ == (if verbose {
            "debug"@
        } else {
            "warn"@
        }),
{
    if verbose {
        "debug"
    } else {
        "warn"
    }
}

/// Whether the arguments of the program ask for the daemon.
pub fn wants_daemon(args: &Vec<String>) -> (r: bool)
    ensures
        r == texts(args@).contains("--daemon"@),
        r <==> exists|k: int| 0 <= k < args.len() && (#[trigger] args[k])@ == "--daemon"@,
{
    for i in 0..args.len()
        invariant
            forall|k: int| 0 <= k < i ==> #[trigger] texts(args@)[k] != "--daemon"@,
            forall|k: int| 0 <= k < i ==> (#[trigger] args[k])@ != "--daemon"@,
    {
        assert(texts(args@)[i as int] == args[i as int]@);
        if same_text(args[i].as_str(), "--daemon") {
            return true;
        }
    }
    false
}

/// The columns that are shown: those of the command, or all of them where it names
/// none.
pub fn shown_columns(columns: &Vec<String>) -> (r: Option<Vec<String>>)
    ensures
        match r {
            Some(list) => columns.len() > 0 && texts(list@) == texts(columns@),
            None => columns.len() == 0,
        },
        r matches Some(list) ==> list.len() == columns.len() && (forall|k: int|
            0 <= k < columns.len() ==> (#[trigger] list[k])@ == columns[k]@),
{
    if columns.len() == 0 {
        None
    } else {
        Some(clone_texts(columns))
    }
}

/// The views hold every field.
pub proof fn law_views_hold_errors(err: ErrorReport)
    ensures
        err@.icon == err.icon@,
        err@.message == err.message@,
        err@.suggestions.len() == err.suggestions.len(),
        forall|k: int|
            0 <= k < err.suggestions.len() ==> #[trigger] err@.suggestions[k]
                == err.suggestions[k]@,
{
}

/// An error is shown by its icon and its text, and where something may help, by an empty
/// line and one line for each suggestion, in order.
pub proof fn law_errors_are_shown_with_every_suggestion(err: ErrorReportView)
    ensures
        error_lines(err).len() == (if err.suggestions.len() == 0 {
            1
        } else {
            err.suggestions.len() + 2
        }),
        error_lines(err)[0] == err.icon + " "@ + err.message,
        err.suggestions.len() > 0 ==> error_lines(err)[1] == Seq::<char>::empty(),
        forall|k: int|
            0 <= k < err.suggestions.len() ==> error_lines(err)[k + 2] == "  -> "@
                + #[trigger] err.suggestions[k],
{
}

} // verus!
