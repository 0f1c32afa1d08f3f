//! Keeping an adapter: where its file stands, and what is said about it.
use vstd::prelude::*;
use vstd::string::*;
use crate::text::{join2, join4, opt_str, opt_text, text_or, texts};

verus! {

/// The directory that the user's files stand under: what `HOME` names, else what
/// `USERPROFILE` names, else the current directory.
pub fn home_dir(home: Option<&str>, profile: Option<&str>) -> (r: String)
    ensures
        r@ == text_or(opt_str(home), text_or(opt_str(profile), "."@)),
        home matches Some(h) ==> r@ == h@,
        home is None ==> r@ == (match profile {
            Some(p) => p@,
            None => "."@,
        }),
{
    match home {
        Some(h) => h.to_owned(),
        None => match profile {
            Some(p) => p.to_owned(),
            None => ".".to_owned(),
        },
    }
}

/// The directories, each within the one before, that the adapters of a site stand
/// in, below the user's own.
pub fn adapter_dirs(site: &str) -> (r: Vec<String>)
    ensures
        texts(r@) == seq![".opencli-rs"@, "adapters"@, site@],
        r.len() == 3,
        r[0]@ == ".opencli-rs"@,
        r[1]@ == "adapters"@,
        r[2]@ == site@,
{
    let mut r: Vec<String> = Vec::new();
    r.push(".opencli-rs".to_owned());
    r.push("adapters".to_owned());
    r.push(site.to_owned());
    assert(texts(r@) =~= seq![".opencli-rs"@, "adapters"@, site@]);
    r
}

/// The name of an adapter's file.
pub open spec fn adapter_file(name: Seq<char>) -> Seq<char> {
    name + ".yaml"@
}

/// The name of an adapter's file.
pub fn adapter_file_name(name: &str) -> (r: String)
    ensures
        r@ == adapter_file(name@),
        r@ == name@ + ".yaml"@,
{
    join2(name, ".yaml")
}

/// Two adapters of one site with the same file have the same name, so no adapter
/// takes the place of another.
pub proof fn law_file_tells_the_name(a: Seq<char>, b: Seq<char>)
    requires
        adapter_file(a) == adapter_file(b),
    ensures
        a == b,
{
    assert(adapter_file(a).len() == a.len() + ".yaml"@.len());
    assert(adapter_file(b).len() == b.len() + ".yaml"@.len());
    assert(adapter_file(a).take(a.len() as int) =~= a);
    assert(adapter_file(b).take(b.len() as int) =~= b);
}

/// What came of writing an adapter's file.
pub enum SaveOutcome {
    /// It stands at that path.
    Saved { path: String },
    /// It could not be written.
    Failed { detail: String },
}

/// What is said after an adapter was to be kept.
pub struct SaveReport {
    /// The lines for the user.
    pub lines: Vec<String>,
    /// What is printed as output: the adapter itself, where it was not kept.
    pub output: Option<String>,
}

/// The lines for the user.
pub open spec fn save_lines(site: Seq<char>, name: Seq<char>, outcome: SaveOutcome) -> Seq<
    Seq<char>,
> {
    match outcome {
        SaveOutcome::Saved { path } => seq![
            "✅ Generated adapter: "@ + site + " "@ + name,
            "   Saved to: "@ + path@,
            Seq::<char>::empty(),
            "   Run it now:"@,
            "   opencli-rs "@ + site + " "@ + name,
        ],
        SaveOutcome::Failed { detail } => seq![
            "Generated adapter but failed to save: "@ + detail@,
            Seq::<char>::empty(),
        ],
    }
}

/// What is said after an adapter was to be kept. One that could not be kept is not
/// lost: it is printed.
pub fn save_adapter(site: &str, name: &str, yaml: &str, outcome: &SaveOutcome) -> (r: SaveReport)
    ensures
        texts(r.lines@) == save_lines(site@, name@, *outcome),
        opt_text(r.output) == (if *outcome is Saved {
            None::<Seq<char>>
        } else {
            Some(yaml@)
        }),
        match *outcome {
            SaveOutcome::Saved { path } => r.output is None && r.lines.len() == 5 && r.lines[0]@
                == "✅ Generated adapter: "@ + site@ + " "@ + name@ && r.lines[1]@
                == "   Saved to: "@ + path@ && r.lines[2]@.len() == 0 && r.lines[3]@
                == "   Run it now:"@ && r.lines[4]@ == "   opencli-rs "@ + site@ + " "@ + name@,
            SaveOutcome::Failed { detail } => r.output is Some && (r.output->0)@ == yaml@
                && r.lines.len() == 2 && r.lines[0]@ == "Generated adapter but failed to save: "@
                + detail@ && r.lines[1]@.len() == 0,
        },
{
    let mut lines: Vec<String> = Vec::new();
    match outcome {
        SaveOutcome::Saved { path } => {
            lines.push(join4("✅ Generated adapter: ", site, " ", name));
            lines.push(join2("   Saved to: ", path.as_str()));
            lines.push(String::new());
            lines.push("   Run it now:".to_owned());
            lines.push(join4("   opencli-rs ", site, " ", name));
            assert(texts(lines@) =~= save_lines(site@, name@, *outcome));
            SaveReport { lines, output: None }
        },
        SaveOutcome::Failed { detail } => {
            lines.push(join2("Generated adapter but failed to save: ", detail.as_str()));
            lines.push(String::new());
            assert(texts(lines@) =~= save_lines(site@, name@, *outcome));
            SaveReport { lines, output: Some(yaml.to_owned()) }
        },
    }
}

} // verus!
