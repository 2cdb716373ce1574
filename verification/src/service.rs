//! The rendering orchestrator: decides construction from the bootstrap
//! findings, expands the template, names the output document, and
//! interprets the outcome of the external converter run. The subprocess
//! itself is outside work: the caller performs it and hands the outcome
//! back.
use vstd::prelude::*;
use vstd::string::StringExecFns;

use crate::engine::TemplateEngine;
use crate::engine::TemplateErrorKind;
use crate::engine::hb_expand;
use crate::engine::hb_expand_ok;
use crate::engine::ini_parses;
use crate::engine::ini_sections;
use crate::engine::loadable;
use crate::i18n::flattened_map;
use crate::i18n::map_of;
use crate::i18n::pairs_view;

verus! {

/// Which stage of service construction failed.
#[derive(Clone, Copy, Debug, PartialEq, Eq, Structural)]
pub enum ServiceErrorKind {
    /// The external converter tool is missing or failed its probe.
    Bootstrap,
    /// The working directory could not be made available.
    WorkDir,
    /// The template engine could not be built.
    EngineInit,
}

/// A failure of service construction, tagged with its stage.
#[derive(Debug)]
pub struct ServiceError {
    pub kind: ServiceErrorKind,
    pub message: String,
}

/// Which point of a render call failed.
#[derive(Clone, Copy, Debug, PartialEq, Eq, Structural)]
pub enum RenderingErrorKind {
    /// Template expansion failed, with the engine's own stage.
    Template(TemplateErrorKind),
    /// The converter process could not be spawned.
    SpawnFailure,
    /// The document body could not be written into the converter.
    InputWriteFailure,
    /// Waiting for the converter to exit failed.
    WaitFailure,
    /// The converter exited with a non-zero status.
    NonZeroExit,
}

/// A failure of one render call, tagged with the point it came from.
#[derive(Debug)]
pub struct RenderingError {
    pub kind: RenderingErrorKind,
    pub message: String,
}

/// Everything a caller needs to run the external converter for one
/// render call: the expanded document body, the destination path, and
/// the converter command.
#[derive(Debug)]
pub struct RenderJob {
    /// The expanded HTML text, to be written to the converter's input.
    pub html: String,
    /// Where the converter is to place the document.
    pub dest_path: String,
    /// The converter command name or path.
    pub cmd: String,
}

/// How one run of the external converter went, as the caller observed
/// it.
#[derive(Debug)]
pub enum SubprocessOutcome {
    /// The process could not be spawned at all.
    SpawnFailed(String),
    /// The document body could not be written into its input.
    InputWriteFailed(String),
    /// Waiting for it to exit failed.
    WaitFailed(String),
    /// It ran to an exit, successfully or not, with its captured
    /// diagnostics.
    Exited { success: bool, stdout: String, stderr: String },
}

/// The destination path for one render: the working directory, the
/// fresh identifier and the template name joined as
/// `{dir}/{id}-{name}.pdf`.
pub open spec fn path_of(dir: Seq<char>, id: Seq<char>, name: Seq<char>) -> Seq<char> {
    dir + seq!['/'] + id + seq!['-'] + name + seq!['.', 'p', 'd', 'f']
}

/// Relies on `uuid::Uuid::new_v4` and its hyphenated text form: a fresh
/// random identifier, always 36 characters long. Nothing relates two
/// calls: each outcome is arbitrary beyond its length.
#[verifier::external_body]
fn fresh_identifier() -> (r: String)
    ensures
        r@.len() == 36,
{
    uuid::Uuid::new_v4().to_string()
}

/// Joins working directory, identifier and template name into the
/// destination path `{dir}/{id}-{name}.pdf`.
pub fn make_dest_path(dir: &str, id: &str, name: &str) -> (r: String)
    ensures
        r@ == path_of(dir@, id@, name@),
{
    proof {
        reveal_strlit("/");
        reveal_strlit("-");
        reveal_strlit(".pdf");
    }
    let mut s = String::from_str(dir);
    s.append("/");
    s.append(id);
    s.append("-");
    s.append(name);
    s.append(".pdf");
    proof {
        assert(s@ =~= path_of(dir@, id@, name@));
    }
    s
}

/// Distinct identifiers of one length give distinct destination paths,
/// whatever the directory and template name are.
pub proof fn lemma_distinct_ids_distinct_paths(
    dir: Seq<char>,
    id1: Seq<char>,
    id2: Seq<char>,
    name: Seq<char>,
)
    requires
        id1.len() == id2.len(),
        id1 != id2,
    ensures
        path_of(dir, id1, name) != path_of(dir, id2, name),
{
    if path_of(dir, id1, name) == path_of(dir, id2, name) {
        assert forall|i: int| 0 <= i < id1.len() implies id1[i] == id2[i] by {
            assert(path_of(dir, id1, name)[dir.len() + 1 + i] == id1[i]);
            assert(path_of(dir, id2, name)[dir.len() + 1 + i] == id2[i]);
        }
        assert(id1 =~= id2);
    }
}

/// The rendering service: the template engine plus the immutable
/// configuration of one deployment.
pub struct ReportService {
    template_engine: TemplateEngine,
    wkhtmltopdf_cmd: String,
    work_dir: String,
}

impl ReportService {
    /// The loaded template map.
    pub closed spec fn templates(&self) -> Map<Seq<char>, Seq<char>> {
        self.template_engine.templates()
    }

    /// The localization table of the engine's `i18` helper.
    pub closed spec fn i18_map(&self) -> Map<Seq<char>, Seq<char>> {
        self.template_engine.i18_map()
    }

    /// The converter command.
    pub closed spec fn cmd(&self) -> Seq<char> {
        self.wkhtmltopdf_cmd@
    }

    /// The working directory.
    pub closed spec fn work_dir(&self) -> Seq<char> {
        self.work_dir@
    }

    /// Decides construction from the bootstrap findings. The caller
    /// probes the converter tool first and creates the working
    /// directory only after that probe succeeds; construction fails on
    /// a failed probe before anything else, then on an unavailable
    /// working directory, then on an engine that would not build.
    pub fn new(
        templates: &Vec<(String, String)>,
        i18_source: &str,
        wkhtmltopdf_cmd: String,
        work_dir: String,
        tool_ok: bool,
        work_dir_ok: bool,
    ) -> (r: Result<ReportService, ServiceError>)
        ensures
            r is Ok <==> tool_ok && work_dir_ok && ini_parses(i18_source@) && (forall|j: int|
                0 <= j < templates@.len() ==> #[trigger] loadable(templates@[j].1@)),
            !tool_ok ==> r is Err && r->Err_0.kind == ServiceErrorKind::Bootstrap,
            tool_ok && !work_dir_ok ==> r is Err && r->Err_0.kind == ServiceErrorKind::WorkDir,
            tool_ok && work_dir_ok && r is Err ==> r->Err_0.kind == ServiceErrorKind::EngineInit,
            r is Ok ==> r->Ok_0.templates() == map_of(
                pairs_view(templates@),
            ) && r->Ok_0.i18_map() == flattened_map(ini_sections(i18_source@)) && r->Ok_0.cmd()
                == wkhtmltopdf_cmd@ && r->Ok_0.work_dir() == work_dir@,
    {
        if !tool_ok {
            return Err(
                ServiceError {
                    kind: ServiceErrorKind::Bootstrap,
                    message: String::from_str(
                        "wkhtmltopdf tool is not found. Please install it.",
                    ),
                },
            );
        }
        if !work_dir_ok {
            return Err(
                ServiceError {
                    kind: ServiceErrorKind::WorkDir,
                    message: String::from_str("Failed to create working directory"),
                },
            );
        }
        match TemplateEngine::from_parts(templates, i18_source) {
            Ok(template_engine) => Ok(
                ReportService { template_engine, wkhtmltopdf_cmd, work_dir },
            ),
            Err(e) => Err(
                ServiceError {
                    kind: ServiceErrorKind::EngineInit,
                    message: String::from_str("Failed to create template engine: ").concat(
                        e.message.as_str(),
                    ),
                },
            ),
        }
    }

    /// A fresh destination path under the working directory:
    /// `{work_dir}/{id}-{template_name}.pdf` with a freshly generated
    /// 36-character identifier.
    pub fn dest_name(&self, template_name: &str) -> (r: String)
        ensures
            exists|id: Seq<char>|
                id.len() == 36 && r@ == #[trigger] path_of(self.work_dir(), id, template_name@),
    {
        let id = fresh_identifier();
        let r = make_dest_path(self.work_dir.as_str(), id.as_str(), template_name);
        proof {
            assert(r@ == path_of(self.work_dir(), id@, template_name@));
        }
        r
    }

    /// Expands the named template against the data text and plans the
    /// converter run: the expanded body, a fresh destination path, and
    /// the converter command. An engine failure is passed through
    /// unchanged under its own stage; the subprocess itself has not run
    /// yet. The call succeeds exactly when the engine's expansion does.
    pub fn render(&self, template_name: &str, data_json: &str) -> (r: Result<
        RenderJob,
        RenderingError,
    >)
        ensures
            r is Ok <==> self.templates().dom().contains(template_name@) && hb_expand_ok(
                self.templates(),
                self.i18_map(),
                template_name@,
                data_json@,
            ),
            !self.templates().dom().contains(template_name@) <==> r is Err && r->Err_0.kind
                == RenderingErrorKind::Template(TemplateErrorKind::NotFound),
            (r is Err && r->Err_0.kind == RenderingErrorKind::Template(
                TemplateErrorKind::Expansion,
            )) <==> self.templates().dom().contains(template_name@) && !hb_expand_ok(
                self.templates(),
                self.i18_map(),
                template_name@,
                data_json@,
            ),
            r is Err ==> r->Err_0.kind matches RenderingErrorKind::Template(_),
            r is Ok ==> {
                &&& r->Ok_0.html@ == hb_expand(
                    self.templates(),
                    self.i18_map(),
                    template_name@,
                    data_json@,
                )
                &&& exists|id: Seq<char>|
                    id.len() == 36 && r->Ok_0.dest_path@ == #[trigger] path_of(
                        self.work_dir(),
                        id,
                        template_name@,
                    )
                &&& r->Ok_0.cmd@ == self.cmd()
            },
    {
        let html = match self.template_engine.render(template_name, data_json) {
            Ok(html) => html,
            Err(e) => {
                return Err(
                    RenderingError { kind: RenderingErrorKind::Template(e.kind), message: e.message },
                );
            },
        };
        let dest_path = self.dest_name(template_name);
        Ok(RenderJob { html, dest_path, cmd: self.wkhtmltopdf_cmd.clone() })
    }

    /// Interprets the outcome of the converter run for a planned job:
    /// only a clean exit yields the destination path; every failure
    /// point keeps its own tag, and a non-zero exit never yields a
    /// path.
    pub fn complete_render(template_name: &str, dest_path: String, outcome: SubprocessOutcome) -> (r:
        Result<String, RenderingError>)
        ensures
            (outcome matches SubprocessOutcome::Exited { success: true, .. }) <==> r is Ok,
            r is Ok ==> r->Ok_0@ == dest_path@,
            (outcome matches SubprocessOutcome::Exited { success: false, .. }) ==> r is Err
                && r->Err_0.kind == RenderingErrorKind::NonZeroExit,
            outcome is SpawnFailed ==> r is Err && r->Err_0.kind
                == RenderingErrorKind::SpawnFailure,
            outcome is InputWriteFailed ==> r is Err && r->Err_0.kind
                == RenderingErrorKind::InputWriteFailure,
            outcome is WaitFailed ==> r is Err && r->Err_0.kind
                == RenderingErrorKind::WaitFailure,
    {
        match outcome {
            SubprocessOutcome::Exited { success: true, .. } => Ok(dest_path),
            SubprocessOutcome::Exited { success: false, stdout, stderr } => Err(
                RenderingError {
                    kind: RenderingErrorKind::NonZeroExit,
                    message: String::from_str("Failed to render template: ").concat(
                        template_name,
                    ).concat(" stdout: ").concat(stdout.as_str()).concat(" stderr: ").concat(
                        stderr.as_str(),
                    ),
                },
            ),
            SubprocessOutcome::SpawnFailed(m) => Err(
                RenderingError {
                    kind: RenderingErrorKind::SpawnFailure,
                    message: String::from_str("Failed to spawn child process: ").concat(
                        m.as_str(),
                    ),
                },
            ),
            SubprocessOutcome::InputWriteFailed(m) => Err(
                RenderingError {
                    kind: RenderingErrorKind::InputWriteFailure,
                    message: String::from_str("Failed to write HTML into stdin: ").concat(
                        m.as_str(),
                    ),
                },
            ),
            SubprocessOutcome::WaitFailed(m) => Err(
                RenderingError {
                    kind: RenderingErrorKind::WaitFailure,
                    message: String::from_str("Failed to read output: ").concat(m.as_str()),
                },
            ),
        }
    }
}

/// The sentinel argument that tells the converter to read its input
/// from the pipe rather than a file.
pub fn use_stdin_marker() -> (r: &'static str)
    ensures
        r@ == seq!['-'],
{
    proof {
        reveal_strlit("-");
    }
    let r = "-";
    assert(r@ =~= seq!['-']);
    r
}

} // verus!
