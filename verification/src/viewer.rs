//! The schematic viewer: what it shows, and how it gets there.
//!
//! A schematic is rendered to SVG by the command line tool of KiCAD. The viewer runs the tool,
//! reads and watches files and shows windows; what it runs, reads and says is decided here.

use crate::json::{json_quoted, json_string};
use crate::paths::{can_be_file_name, file_name, is_file_alone, is_file_in, is_name};
use crate::paths::{is_separator, optional_text};
use crate::text::{file_stem, lossy_text, stem_of, utf8_lossy};
use crate::text::{law_name_without_extension_is_its_stem, law_stem_stands_before_the_extension};
use vstd::prelude::*;
use vstd::utf8::{decode_utf8, valid_utf8};

verus! {

/// Where the KiCAD command line tool is looked for first.
pub const KICAD_CLI_AT_ROOT: &'static str = r"C:\KiCad\10.0\bin\kicad-cli.exe";

/// Where the KiCAD command line tool is looked for next.
pub const KICAD_CLI_IN_PROGRAM_FILES: &'static str = r"C:\Program Files\KiCad\10.0\bin\kicad-cli.exe";

/// The KiCAD command line tool, to be found by the search path of the system.
pub const KICAD_CLI_ON_PATH: &'static str = "kicad-cli";

/// Where KiCAD is looked for first.
pub const KICAD_AT_ROOT: &'static str = r"C:\KiCad\10.0\bin\kicad.exe";

/// Where KiCAD is looked for next.
pub const KICAD_IN_PROGRAM_FILES: &'static str = r"C:\Program Files\KiCad\10.0\bin\kicad.exe";

/// KiCAD, to be found by the search path of the system.
pub const KICAD_ON_PATH: &'static str = "kicad";

/// The directory, under that for temporary files, that SVG files are written to.
pub const OUTPUT_DIR_NAME: &'static str = "konnect-viewer";

/// What the viewer works with.
pub struct ViewerState {
    /// The schematic that is shown, once one was opened.
    pub schematic_path: Option<String>,
    /// The KiCAD command line tool.
    pub kicad_cli: String,
}

/// A schematic to be rendered by a command line tool.
pub struct RenderJob {
    pub cli: String,
    pub schematic: String,
}

/// A program to be started with one argument.
pub struct Launch {
    pub program: String,
    pub argument: String,
}

/// How a run of the command line tool ended.
pub struct CliRun {
    pub success: bool,
    /// What it wrote to standard error.
    pub stderr: Vec<u8>,
}

/// What comes next while a schematic is rendered.
pub enum RenderStep {
    /// Run the command line tool with these arguments.
    Run(Vec<String>),
    /// Read the SVG file of this name in the output directory.
    Read(String),
    /// Nothing more: this is the SVG text, or why there is none.
    Done(Result<String, String>),
}

/// A schematic that was opened and rendered.
pub struct OpenedSchematic {
    pub svg: String,
    /// The title of the window that shows it.
    pub title: String,
}

/// The first of two places that is present, or else a fallback.
pub open spec fn first_present(
    present: Seq<bool>,
    first: Seq<char>,
    second: Seq<char>,
    fallback: Seq<char>,
) -> Seq<char>
    recommends
        present.len() == 2,
{
    if present[0] {
        first
    } else if present[1] {
        second
    } else {
        fallback
    }
}

/// Chooses the KiCAD command line tool, given which of the places it is looked for are present.
pub fn detect_kicad_cli(present: [bool; 2]) -> (cli: String)
    ensures
        cli@ == first_present(
            present@,
            KICAD_CLI_AT_ROOT@,
            KICAD_CLI_IN_PROGRAM_FILES@,
            KICAD_CLI_ON_PATH@,
        ),
{
    if present[0] {
        KICAD_CLI_AT_ROOT.to_string()
    } else if present[1] {
        KICAD_CLI_IN_PROGRAM_FILES.to_string()
    } else {
        KICAD_CLI_ON_PATH.to_string()
    }
}

/// Chooses KiCAD, given which of the places it is looked for are present.
pub fn detect_kicad(present: [bool; 2]) -> (kicad: String)
    ensures
        kicad@ == first_present(
            present@,
            KICAD_AT_ROOT@,
            KICAD_IN_PROGRAM_FILES@,
            KICAD_ON_PATH@,
        ),
{
    if present[0] {
        KICAD_AT_ROOT.to_string()
    } else if present[1] {
        KICAD_IN_PROGRAM_FILES.to_string()
    } else {
        KICAD_ON_PATH.to_string()
    }
}

impl ViewerState {
    /// A viewer that shows nothing yet.
    pub fn new(kicad_cli: String) -> (s: Self)
        ensures
            s.schematic_path is None,
            s.kicad_cli == kicad_cli,
    {
        ViewerState { schematic_path: None, kicad_cli }
    }

    /// How the schematic that is shown is rendered.
    pub open spec fn job(self) -> Result<RenderJob, Seq<char>> {
        match self.schematic_path {
            Some(path) => Ok(RenderJob { cli: self.kicad_cli, schematic: path }),
            None => Err("No schematic loaded"@),
        }
    }

    /// The viewer after the schematic at `path` was opened, where `found` says whether there is
    /// such a file.
    pub open spec fn opened(self, path: String, found: bool) -> ViewerState {
        if found {
            ViewerState { schematic_path: Some(path), kicad_cli: self.kicad_cli }
        } else {
            self
        }
    }

    /// Starts to open the schematic at `path`, where `found` says whether there is such a file.
    /// The file becomes the one that is shown, even if it turns out that it cannot be rendered.
    pub fn open_schematic(&mut self, path: String, found: bool) -> (r: Result<RenderJob, String>)
        ensures
            *final(self) == old(self).opened(path, found),
            match r {
                Ok(job) => {
                    &&& found
                    &&& job.cli == old(self).kicad_cli
                    &&& job.schematic == path
                },
                Err(message) => {
                    &&& !found
                    &&& message@ == "File not found: "@ + path@
                },
            },
    {
        if !found {
            return Err("File not found: ".to_string().concat(path.as_str()));
        }
        self.schematic_path = Some(path.clone());
        Ok(RenderJob { cli: self.kicad_cli.clone(), schematic: path })
    }

    /// Renders the schematic that is shown once more.
    pub fn refresh(&self) -> (r: Result<RenderJob, String>)
        ensures
            match r {
                Ok(job) => self.job() == Ok::<RenderJob, Seq<char>>(job),
                Err(message) => self.job() == Err::<RenderJob, Seq<char>>(message@),
            },
    {
        match &self.schematic_path {
            Some(path) => Ok(
                RenderJob { cli: self.kicad_cli.clone(), schematic: path.clone() },
            ),
            None => Err("No schematic loaded".to_string()),
        }
    }

    /// Opens the schematic that is shown in KiCAD, given which of the places where that is looked
    /// for are present.
    pub fn open_in_kicad(&self, present: [bool; 2]) -> (r: Result<Launch, String>)
        ensures
            match r {
                Ok(launch) => {
                    &&& self.schematic_path == Some(launch.argument)
                    &&& launch.program@ == first_present(
                        present@,
                        KICAD_AT_ROOT@,
                        KICAD_IN_PROGRAM_FILES@,
                        KICAD_ON_PATH@,
                    )
                },
                Err(message) => {
                    &&& self.schematic_path is None
                    &&& message@ == "No schematic loaded"@
                },
            },
    {
        match &self.schematic_path {
            Some(path) => Ok(Launch { program: detect_kicad(present), argument: path.clone() }),
            None => Err("No schematic loaded".to_string()),
        }
    }
}

/// What was opened is what is rendered from then on, with the same tool.
pub proof fn law_refresh_renders_what_was_opened(before: ViewerState, path: String)
    ensures
        before.opened(path, true).job() == Ok::<RenderJob, Seq<char>>(
            (RenderJob { cli: before.kicad_cli, schematic: path }),
        ),
{
}

/// An attempt to open a file that is not there leaves the viewer as it was.
pub proof fn law_missing_file_changes_nothing(before: ViewerState, path: String)
    ensures
        before.opened(path, false) == before,
{
}

/// An attempt to open the schematic at `path`, where `found` says whether there is such a file.
pub struct Opening {
    pub path: String,
    pub found: bool,
}

/// The viewer after these attempts, one after the other.
pub open spec fn after_openings(before: ViewerState, openings: Seq<Opening>) -> ViewerState
    decreases openings.len(),
{
    if openings.len() == 0 {
        before
    } else {
        let o = openings.last();
        after_openings(before, openings.drop_last()).opened(o.path, o.found)
    }
}

/// The attempt at `i` is the last that found its file.
pub open spec fn is_last_found(openings: Seq<Opening>, i: int) -> bool {
    &&& 0 <= i < openings.len()
    &&& openings[i].found
    &&& forall|j: int| i < j < openings.len() ==> !(#[trigger] openings[j]).found
}

/// After any series of attempts to open a schematic, the last one that was found is rendered, with
/// the tool that the viewer began with. If none was found, what was shown before is rendered; a
/// viewer that showed nothing then reports that none is loaded.
pub proof fn law_last_found_schematic_is_rendered(before: ViewerState, openings: Seq<Opening>)
    ensures
        after_openings(before, openings).kicad_cli == before.kicad_cli,
        forall|i: int| #[trigger]
            is_last_found(openings, i) ==> after_openings(before, openings).job() == Ok::<
                RenderJob,
                Seq<char>,
            >((RenderJob { cli: before.kicad_cli, schematic: openings[i].path })),
        (forall|i: int| 0 <= i < openings.len() ==> !(#[trigger] openings[i]).found)
            ==> after_openings(before, openings) == before,
        (forall|i: int| 0 <= i < openings.len() ==> !(#[trigger] openings[i]).found)
            && before.schematic_path is None ==> after_openings(before, openings).job() == Err::<
            RenderJob,
            Seq<char>,
        >("No schematic loaded"@),
    decreases openings.len(),
{
    if openings.len() > 0 {
        let earlier = openings.drop_last();
        law_last_found_schematic_is_rendered(before, earlier);
        assert forall|i: int| #[trigger] is_last_found(openings, i) implies after_openings(
            before,
            openings,
        ).job() == Ok::<RenderJob, Seq<char>>(
            (RenderJob { cli: before.kicad_cli, schematic: openings[i].path }),
        ) by {
            if i < openings.len() - 1 {
                assert(!openings[openings.len() - 1].found);
                assert forall|j: int| i < j < earlier.len() implies !(#[trigger] earlier[j]).found by {
                    assert(earlier[j] == openings[j]);
                }
                assert(is_last_found(earlier, i));
            }
        }
        if forall|i: int| 0 <= i < openings.len() ==> !(#[trigger] openings[i]).found {
            assert forall|i: int| 0 <= i < earlier.len() implies !(#[trigger] earlier[i]).found by {
                assert(earlier[i] == openings[i]);
            }
            assert(!openings[openings.len() - 1].found);
        }
    }
}

/// The texts of a list of strings.
pub open spec fn texts(strings: Seq<String>) -> Seq<Seq<char>> {
    strings.map_values(|s: String| s@)
}

/// A name that may be missing, which then is empty.
pub open spec fn name_or_empty(name: Option<Seq<char>>) -> Seq<char> {
    match name {
        Some(n) => n,
        None => Seq::empty(),
    }
}

/// The name of the SVG file for a schematic of this file name.
pub open spec fn svg_name(name: Option<Seq<char>>) -> Seq<char> {
    file_stem(name_or_empty(name)) + ".svg"@
}

/// The title of a window for a schematic of this file name.
pub open spec fn title_text(name: Option<Seq<char>>) -> Seq<char> {
    name_or_empty(name) + " — Schematic Viewer"@
}

/// The name of the SVG file that the command line tool writes for a schematic of this file name.
pub fn svg_file_name(name: Option<String>) -> (r: String)
    ensures
        r@ == svg_name(optional_text(name)),
{
    let name: String = match name {
        Some(n) => n,
        None => String::new(),
    };
    stem_of(name.as_str()).to_string().concat(".svg")
}

/// The arguments that make the command line tool write the SVG file of `schematic` to
/// `output_dir`.
pub open spec fn cli_arguments(output_dir: Seq<char>, schematic: Seq<char>) -> Seq<Seq<char>> {
    seq!["sch"@, "export"@, "svg"@, "--output"@, output_dir, schematic]
}

impl RenderStep {
    /// This is the step after the output directory was created, or could not be created.
    pub open spec fn follows_prepare(
        self,
        job: RenderJob,
        output_dir: &str,
        prepared: Result<(), String>,
    ) -> bool {
        match prepared {
            Ok(_) => self matches RenderStep::Run(args) && texts(args@) == cli_arguments(
                output_dir@,
                job.schematic@,
            ),
            Err(e) => self == RenderStep::Done(Err(e)),
        }
    }

    /// This is the step after the command line tool was run, or could not be run: the SVG file
    /// that it wrote is named after the schematic.
    pub open spec fn follows_run(self, job: RenderJob, ran: Result<CliRun, String>) -> bool {
        match ran {
            Ok(run) => if run.success {
                self matches RenderStep::Read(svg) && exists|name: Option<Seq<char>>|
                    {
                        &&& #[trigger] can_be_file_name(job.schematic@, name)
                        &&& svg@ == svg_name(name)
                    }
            } else {
                &&& self.fails_with("kicad-cli failed: "@ + utf8_lossy(run.stderr@))
                &&& valid_utf8(run.stderr@) ==> self.fails_with(
                    "kicad-cli failed: "@ + decode_utf8(run.stderr@),
                )
            },
            Err(e) => self.fails_with("Failed to run kicad-cli: "@ + e@),
        }
    }

    /// This is the step after the SVG file was read, or could not be read.
    pub open spec fn follows_read(self, read: Result<String, String>) -> bool {
        match read {
            Ok(svg) => self == RenderStep::Done(Ok(svg)),
            Err(e) => self.fails_with("Failed to read SVG: "@ + e@),
        }
    }

    /// Rendering ends here with this error.
    pub open spec fn fails_with(self, message: Seq<char>) -> bool {
        self matches RenderStep::Done(Err(m)) && m@ == message
    }
}

impl RenderJob {
    /// The arguments that make the command line tool write the SVG file to `output_dir`.
    fn arguments(&self, output_dir: &str) -> (args: Vec<String>)
        ensures
            texts(args@) == cli_arguments(output_dir@, self.schematic@),
    {
        let mut args: Vec<String> = Vec::new();
        args.push("sch".to_string());
        args.push("export".to_string());
        args.push("svg".to_string());
        args.push("--output".to_string());
        args.push(output_dir.to_string());
        args.push(self.schematic.clone());
        args
    }

    /// Goes on once the output directory was created. An `Err` means that it could not be
    /// created, and says why.
    pub fn after_prepare(&self, output_dir: &str, prepared: Result<(), String>) -> (step:
        RenderStep)
        ensures
            step.follows_prepare(*self, output_dir, prepared),
    {
        match prepared {
            Ok(_) => RenderStep::Run(self.arguments(output_dir)),
            Err(e) => RenderStep::Done(Err(e)),
        }
    }

    /// Goes on once the command line tool was run. An `Err` means that it could not be run, and
    /// says why.
    pub fn after_run(&self, ran: Result<CliRun, String>) -> (step: RenderStep)
        ensures
            step.follows_run(*self, ran),
    {
        match ran {
            Ok(run) => if run.success {
                let name = file_name(self.schematic.as_str());
                RenderStep::Read(svg_file_name(name))
            } else {
                let stderr = lossy_text(run.stderr.as_slice());
                RenderStep::Done(Err("kicad-cli failed: ".to_string().concat(stderr.as_str())))
            },
            Err(e) => RenderStep::Done(
                Err("Failed to run kicad-cli: ".to_string().concat(e.as_str())),
            ),
        }
    }

    /// Goes on with a schematic that is being opened once it was rendered: one that could not be
    /// rendered is not shown or watched.
    pub fn finish_open(&self, rendered: Result<String, String>) -> (r: Result<
        OpenedSchematic,
        String,
    >)
        ensures
            match rendered {
                Ok(svg) => {
                    &&& r is Ok
                    &&& r->Ok_0.svg == svg
                    &&& self.is_title(r->Ok_0.title@)
                },
                Err(e) => r == Err::<OpenedSchematic, String>(e),
            },
    {
        match rendered {
            Ok(svg) => {
                let name = file_name(self.schematic.as_str());
                Ok(OpenedSchematic { svg, title: window_title(name) })
            },
            Err(e) => Err(e),
        }
    }

    /// `title` is the title of the window that shows the schematic.
    pub open spec fn is_title(self, title: Seq<char>) -> bool {
        exists|name: Option<Seq<char>>|
            {
                &&& #[trigger] can_be_file_name(self.schematic@, name)
                &&& title == title_text(name)
            }
    }
}

/// Goes on once the SVG file was read. An `Err` means that it could not be read, and says why.
pub fn after_read(read: Result<String, String>) -> (step: RenderStep)
    ensures
        step.follows_read(read),
{
    match read {
        Ok(svg) => RenderStep::Done(Ok(svg)),
        Err(e) => RenderStep::Done(Err("Failed to read SVG: ".to_string().concat(e.as_str()))),
    }
}

/// Rendering succeeds if and only if the directory was created, the tool ran with success and its
/// file was read, and then it gives what was read.
pub proof fn law_rendering_gives_what_was_read(
    job: RenderJob,
    output_dir: &str,
    prepared: Result<(), String>,
    ran: Result<CliRun, String>,
    read: Result<String, String>,
    first: RenderStep,
    second: RenderStep,
    third: RenderStep,
    svg: String,
)
    requires
        first.follows_prepare(job, output_dir, prepared),
        if first is Run {
            second.follows_run(job, ran)
        } else {
            second == first
        },
        if second is Read {
            third.follows_read(read)
        } else {
            third == second
        },
    ensures
        third is Done,
        third == RenderStep::Done(Ok(svg)) <==> {
            &&& prepared is Ok
            &&& ran is Ok
            &&& ran->Ok_0.success
            &&& read == Ok::<String, String>(svg)
        },
{
}

/// Takes the launch of KiCAD. An `Err` means that it could not be launched, and says why.
pub fn check_launch(launched: Result<(), String>) -> (r: Result<(), String>)
    ensures
        match launched {
            Ok(_) => r is Ok,
            Err(e) => r is Err && r->Err_0@ == "Failed to launch KiCAD: "@ + e@,
        },
{
    match launched {
        Ok(_) => Ok(()),
        Err(e) => Err("Failed to launch KiCAD: ".to_string().concat(e.as_str())),
    }
}

/// The title of the window that shows a schematic of this file name.
pub fn window_title(name: Option<String>) -> (r: String)
    ensures
        r@ == title_text(optional_text(name)),
{
    let name: String = match name {
        Some(n) => n,
        None => String::new(),
    };
    name.concat(" — Schematic Viewer")
}

/// A schematic `name` in a directory is rendered to the SVG file named after it, and the title of
/// its window names it.
pub proof fn law_schematic_is_named_by_its_file(
    job: RenderJob,
    dir: Seq<char>,
    name: Seq<char>,
    end: Seq<char>,
    run: CliRun,
    step: RenderStep,
    title: Seq<char>,
)
    requires
        is_file_in(job.schematic@, dir, name, end),
        run.success,
        step.follows_run(job, Ok(run)),
        job.is_title(title),
    ensures
        step matches RenderStep::Read(svg) && svg@ == file_stem(name) + ".svg"@,
        title == name + " — Schematic Viewer"@,
{
}

/// The script that makes the page of the viewer load the schematic at `path`.
pub fn load_script(path: &str) -> (script: String)
    ensures
        script@ == "if(window.loadSchematic) window.loadSchematic("@ + json_quoted(path@) + ");"@,
{
    let argument: String = match json_string(path) {
        Ok(quoted) => quoted,
        Err(_) => String::new(),
    };
    let mut script = "if(window.loadSchematic) window.loadSchematic(".to_string();
    script.append(argument.as_str());
    script.append(");");
    script
}

/// The tool is run to export the schematic of the job as SVG, with the output directory behind the
/// option for it.
pub proof fn law_tool_gets_directory_and_schematic(
    job: RenderJob,
    output_dir: &str,
    step: RenderStep,
)
    requires
        step.follows_prepare(job, output_dir, Ok(())),
    ensures
        step is Run,
        step->Run_0@.len() == 6,
        step->Run_0@[0]@ == "sch"@,
        step->Run_0@[1]@ == "export"@,
        step->Run_0@[2]@ == "svg"@,
        step->Run_0@[3]@ == "--output"@,
        step->Run_0@[4]@ == output_dir@,
        step->Run_0@[5]@ == job.schematic@,
{
    let args = step->Run_0@;
    let ts = texts(args);
    assert(ts.len() == args.len());
    assert(ts[0] == args[0]@);
    assert(ts[1] == args[1]@);
    assert(ts[2] == args[2]@);
    assert(ts[3] == args[3]@);
    assert(ts[4] == args[4]@);
    assert(ts[5] == args[5]@);
}

/// Each step that fails ends the rendering, and says what failed.
pub proof fn law_failed_steps_say_what_failed(
    job: RenderJob,
    output_dir: &str,
    e: String,
    run: CliRun,
    step: RenderStep,
)
    ensures
        step.follows_prepare(job, output_dir, Err(e)) ==> step == RenderStep::Done(Err(e)),
        step.follows_run(job, Err(e)) ==> {
            &&& step is Done
            &&& step->Done_0 is Err
            &&& step->Done_0->Err_0@ == "Failed to run kicad-cli: "@ + e@
        },
        !run.success && step.follows_run(job, Ok(run)) ==> {
            &&& step is Done
            &&& step->Done_0 is Err
            &&& step->Done_0->Err_0@ == "kicad-cli failed: "@ + utf8_lossy(run.stderr@)
            &&& valid_utf8(run.stderr@) ==> step->Done_0->Err_0@ == "kicad-cli failed: "@
                + decode_utf8(run.stderr@)
        },
        step.follows_read(Err(e)) ==> {
            &&& step is Done
            &&& step->Done_0 is Err
            &&& step->Done_0->Err_0@ == "Failed to read SVG: "@ + e@
        },
{
}

/// What was read is what rendering gives, as it is.
pub proof fn law_svg_is_given_as_it_was_read(svg: String, step: RenderStep)
    requires
        step.follows_read(Ok(svg)),
    ensures
        step == RenderStep::Done(Ok(svg)),
{
}

/// The SVG file of a schematic in a directory has its name with another extension, and the title of
/// the window has its name.
pub proof fn law_svg_file_replaces_the_extension(
    job: RenderJob,
    dir: Seq<char>,
    stem: Seq<char>,
    extension: Seq<char>,
    run: CliRun,
    step: RenderStep,
    title: Seq<char>,
)
    requires
        stem.len() > 0,
        stem != seq!['.'],
        forall|i: int| 0 <= i < stem.len() ==> #[trigger] stem[i] != '/' && stem[i] != '\\',
        forall|i: int|
            0 <= i < extension.len() ==> #[trigger] extension[i] != '/' && extension[i] != '\\'
                && extension[i] != '.',
        job.schematic@ == dir + seq!['/'] + (stem + seq!['.'] + extension),
        ({
            let path = job.schematic@;
            path[0] == '/' || path[0] == '\\' ==> path[1] != '/' && path[1] != '\\' && path[1]
                != '?'
        }),
        run.success,
        step.follows_run(job, Ok(run)),
        job.is_title(title),
    ensures
        step is Read,
        step->Read_0@ == stem + ".svg"@,
        title == stem + seq!['.'] + extension + " — Schematic Viewer"@,
{
    let name = stem + seq!['.'] + extension;
    lemma_name_with_extension(stem, extension);
    law_stem_stands_before_the_extension(stem, extension);
    let none = Seq::<char>::empty();
    assert(job.schematic@ =~= dir + seq!['/'] + name + none);
    assert(is_file_in(job.schematic@, dir, name, none));
}

/// The same holds of a schematic given by its name alone.
pub proof fn law_svg_file_of_a_name_alone(
    job: RenderJob,
    stem: Seq<char>,
    extension: Seq<char>,
    run: CliRun,
    step: RenderStep,
    title: Seq<char>,
)
    requires
        stem.len() > 0,
        stem != seq!['.'],
        forall|i: int| 0 <= i < stem.len() ==> #[trigger] stem[i] != '/' && stem[i] != '\\',
        forall|i: int|
            0 <= i < extension.len() ==> #[trigger] extension[i] != '/' && extension[i] != '\\'
                && extension[i] != '.',
        job.schematic@ == stem + seq!['.'] + extension,
        job.schematic@[1] != ':',
        run.success,
        step.follows_run(job, Ok(run)),
        job.is_title(title),
    ensures
        step is Read,
        step->Read_0@ == stem + ".svg"@,
        title == stem + seq!['.'] + extension + " — Schematic Viewer"@,
{
    let name = stem + seq!['.'] + extension;
    lemma_name_with_extension(stem, extension);
    law_stem_stands_before_the_extension(stem, extension);
    let none = Seq::<char>::empty();
    assert(job.schematic@ =~= name + none);
    assert(is_file_alone(job.schematic@, name, none));
}

/// A name with an extension is a file name.
pub proof fn lemma_name_with_extension(stem: Seq<char>, extension: Seq<char>)
    requires
        stem.len() > 0,
        stem != seq!['.'],
        forall|i: int| 0 <= i < stem.len() ==> #[trigger] stem[i] != '/' && stem[i] != '\\',
        forall|i: int|
            0 <= i < extension.len() ==> #[trigger] extension[i] != '/' && extension[i] != '\\',
    ensures
        is_name(stem + seq!['.'] + extension),
{
    let name = stem + seq!['.'] + extension;
    assert forall|i: int| 0 <= i < name.len() implies !is_separator(#[trigger] name[i]) by {
        if i < stem.len() {
            assert(name[i] == stem[i]);
        } else if i > stem.len() {
            assert(name[i] == extension[i - stem.len() - 1]);
        }
    }
    assert(name.len() >= 2);
    if name == seq!['.', '.'] {
        assert(name[0] == stem[0]);
        assert(stem =~= seq!['.']);
    }
}

/// The SVG file of a name is the name with its extension replaced, or with one added if it has
/// none; the title is the name and what it is shown in. A name that is missing counts as empty.
pub proof fn law_names_of_file_and_window(
    name: Seq<char>,
    stem: Seq<char>,
    extension: Seq<char>,
)
    requires
        stem.len() > 0,
        forall|i: int| 0 <= i < extension.len() ==> #[trigger] extension[i] != '.',
    ensures
        svg_name(Some(stem + seq!['.'] + extension)) == stem + ".svg"@,
        (forall|i: int| 1 <= i < name.len() ==> #[trigger] name[i] != '.') ==> svg_name(Some(name))
            == name + ".svg"@,
        svg_name(None) == ".svg"@,
        title_text(Some(name)) == name + " — Schematic Viewer"@,
        title_text(None) == " — Schematic Viewer"@,
{
    law_stem_stands_before_the_extension(stem, extension);
    let none = Seq::<char>::empty();
    law_name_without_extension_is_its_stem(none);
    if forall|i: int| 1 <= i < name.len() ==> #[trigger] name[i] != '.' {
        law_name_without_extension_is_its_stem(name);
    }
    assert(none + ".svg"@ =~= ".svg"@);
    assert(none + " — Schematic Viewer"@ =~= " — Schematic Viewer"@);
}

/// The first place that is present is chosen, whatever the places are; only if none is, the
/// fallback is.
pub proof fn law_first_place_that_is_present_is_chosen(
    present: Seq<bool>,
    first: Seq<char>,
    second: Seq<char>,
    fallback: Seq<char>,
)
    requires
        present.len() == 2,
    ensures
        present[0] ==> first_present(present, first, second, fallback) == first,
        !present[0] && present[1] ==> first_present(present, first, second, fallback) == second,
        !present[0] && !present[1] ==> first_present(present, first, second, fallback) == fallback,
{
}

/// The viewer renders the schematic it shows with its tool, and reports it if it shows none.
pub proof fn law_shown_schematic_is_rendered(viewer: ViewerState)
    ensures
        match viewer.schematic_path {
            Some(path) => {
                &&& viewer.job() is Ok
                &&& viewer.job()->Ok_0.cli == viewer.kicad_cli
                &&& viewer.job()->Ok_0.schematic == path
            },
            None => viewer.job() == Err::<RenderJob, Seq<char>>("No schematic loaded"@),
        },
{
}

/// A schematic that is there is shown from then on, whatever was shown before; one that is not
/// there changes nothing; and the tool stays the same.
pub proof fn law_opened_schematic_is_shown(viewer: ViewerState, path: String)
    ensures
        viewer.opened(path, true).schematic_path == Some(path),
        viewer.opened(path, false).schematic_path == viewer.schematic_path,
        viewer.opened(path, true).kicad_cli == viewer.kicad_cli,
        viewer.opened(path, false).kicad_cli == viewer.kicad_cli,
{
}

/// Renderings go to a directory that is named after the viewer.
pub proof fn law_renderings_have_their_own_directory()
    ensures
        OUTPUT_DIR_NAME@ == "konnect-viewer"@,
{
}

} // verus!
