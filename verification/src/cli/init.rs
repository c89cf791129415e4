//! The `init` command: writes the starter configuration unless a file is
//! already there.
use vstd::prelude::*;
use crate::embedded::BASE_CONFIG_TEMPLATE;
use crate::text::join2;

verus! {

/// The name of the configuration file inside a directory.
pub const CONFIG_FILE: &'static str = "config.json";

/// How a line of the report is to be coloured.
#[derive(Debug, Clone, Copy, PartialEq, Eq, Structural)]
pub enum Tint {
    Plain,
    Red,
    Green,
    Cyan,
    Purple,
    BrightPurple,
}

/// A command that a line of the report names, and its colour.
#[derive(Debug, PartialEq)]
pub struct Hint {
    pub tint: Tint,
    pub text: String,
}

/// A line of the report. Where `command` holds a hint, it is added at the end
/// of the line in its own colour.
#[derive(Debug, PartialEq)]
pub struct Line {
    pub tint: Tint,
    pub text: String,
    pub command: Option<Hint>,
}

/// What `init` decides once it knows whether the path is a directory.
pub enum Target {
    /// The configuration goes to the file of this name inside the directory.
    Inside { file_name: String },
    /// The path is the file itself.
    Itself,
}

/// Where the configuration goes: into `config.json` where the path is a
/// directory, else to the path itself.
pub fn target(is_dir: bool) -> (r: Target)
    ensures
        match r {
            Target::Inside { file_name } => is_dir && file_name@ == CONFIG_FILE@,
            Target::Itself => !is_dir,
        },
{
    if is_dir {
        Target::Inside { file_name: CONFIG_FILE.to_owned() }
    } else {
        Target::Itself
    }
}

/// What `init` does about the file.
pub struct InitPlan {
    /// The content to write, where the file is to be written: the starter
    /// configuration. `None` where a file is already there, which is left
    /// alone.
    pub write: Option<&'static str>,
    /// The report for the user.
    pub report: Vec<Line>,
}

/// A line of a report as plain values: its colour, its text, and the colour
/// and text of the command it names.
pub type LineView = (Tint, Seq<char>, Option<(Tint, Seq<char>)>);

/// The report that tells that the file is already there.
pub open spec fn refusal_lines(location: Seq<char>) -> Seq<LineView> {
    seq![
        (Tint::Red, "Cannot initialize Base Config, file already exists!"@, None),
        (Tint::Plain, "Location: "@ + location, None),
        (
            Tint::Plain,
            "You can input a different path by running "@,
            Some((Tint::Purple, "nya init -o your_path_here"@)),
        ),
        (Tint::Plain, "Otherwise, remove the existing file first."@, None),
    ]
}

/// The report that tells that the file was written.
pub open spec fn success_lines(location: Seq<char>) -> Seq<LineView> {
    seq![
        (Tint::Green, "Created Nya base config template"@, None),
        (Tint::Plain, "Location: "@ + location, None),
        (Tint::Plain, Seq::empty(), None),
        (Tint::Cyan, "Next steps:"@, None),
        (
            Tint::Plain,
            "1. Edit the config file and fill in your infrastructure details"@,
            None,
        ),
        (Tint::Plain, "2. Run: "@, Some((Tint::BrightPurple, "nya base build"@))),
    ]
}

/// The lines of a report as plain values.
pub open spec fn line_views(lines: Seq<Line>) -> Seq<LineView> {
    Seq::new(
        lines.len(),
        |i: int|
            (
                lines[i].tint,
                lines[i].text@,
                match lines[i].command {
                    Some(hint) => Some((hint.tint, hint.text@)),
                    None => None,
                },
            ),
    )
}

/// One line of a report.
fn line(tint: Tint, text: &str, command: Option<(Tint, &str)>) -> (r: Line)
    ensures
        r.tint == tint,
        r.text@ == text@,
        match command {
            Some(c) => r.command matches Some(hint) && hint.tint == c.0 && hint.text@ == c.1@,
            None => r.command is None,
        },
{
    Line {
        tint,
        text: text.to_owned(),
        command: match command {
            Some(c) => Some(Hint { tint: c.0, text: c.1.to_owned() }),
            None => None,
        },
    }
}

/// Decides what `init` does for the file at `location`: a file that exists is
/// left alone and the user is told so; otherwise the starter configuration
/// is to be written and the user is told what comes next.
pub fn run(location: &str, exists: bool) -> (r: InitPlan)
    ensures
        exists ==> r.write is None && line_views(r.report@) == refusal_lines(location@),
        !exists ==> r.write == Some(BASE_CONFIG_TEMPLATE) && line_views(r.report@)
            == success_lines(location@),
{
    let mut report: Vec<Line> = Vec::new();
    let place = join2("Location: ", location);
    if exists {
        report.push(line(Tint::Red, "Cannot initialize Base Config, file already exists!", None));
        report.push(line(Tint::Plain, place.as_str(), None));
        report.push(
            line(
                Tint::Plain,
                "You can input a different path by running ",
                Some((Tint::Purple, "nya init -o your_path_here")),
            ),
        );
        report.push(line(Tint::Plain, "Otherwise, remove the existing file first.", None));
        assert(line_views(report@) =~= refusal_lines(location@));
        InitPlan { write: None, report }
    } else {
        report.push(line(Tint::Green, "Created Nya base config template", None));
        report.push(line(Tint::Plain, place.as_str(), None));
        report.push(line(Tint::Plain, "", None));
        report.push(line(Tint::Cyan, "Next steps:", None));
        report.push(
            line(
                Tint::Plain,
                "1. Edit the config file and fill in your infrastructure details",
                None,
            ),
        );
        report.push(line(Tint::Plain, "2. Run: ", Some((Tint::BrightPurple, "nya base build"))));
        proof {
            reveal_strlit("");
            assert(""@ =~= Seq::<char>::empty());
            assert(report@[2].text@ == Seq::<char>::empty());
        }
        assert(line_views(report@) =~= success_lines(location@));
        InitPlan { write: Some(BASE_CONFIG_TEMPLATE), report }
    }
}

} // verus!
