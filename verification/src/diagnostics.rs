//! Diagnostics: what becomes of every read route of a document, reported
//! route by route without stopping at the first that fails.

use vstd::prelude::*;
use vstd::string::*;

use crate::functions::{
    collect_functions_in_path_route, compiled, Convention, FunctionDefinitionArgs,
    GenerationError,
};
use crate::model::{lemma_views_empty, lemma_views_push, views};
use crate::schema::{path_models, PathModel, Schema};

verus! {

/// What becomes of a route.
#[derive(Debug, Clone, Copy, PartialEq, Eq, Structural)]
pub enum RouteOutcome {
    /// The route compiles to a function.
    Compiled,
    /// A parameter or a response cannot be typed: the operation is left out.
    Skipped,
    /// The route stops generation.
    Aborted(GenerationError),
}

/// The outcome of one route.
#[derive(Debug, Clone, PartialEq, Eq)]
pub struct Diagnostic {
    pub path: String,
    pub operation_id: String,
    pub outcome: RouteOutcome,
}

/// The mathematical content of a [`Diagnostic`].
pub struct DiagnosticView {
    pub path: Seq<char>,
    pub operation_id: Seq<char>,
    pub outcome: RouteOutcome,
}

impl View for Diagnostic {
    type V = DiagnosticView;

    open spec fn view(&self) -> DiagnosticView {
        DiagnosticView {
            path: self.path@,
            operation_id: self.operation_id@,
            outcome: self.outcome,
        }
    }
}

/// The outcome of the route of a path, compiled under its operation
/// identifier.
pub open spec fn outcome_of(path: PathModel, convention: Convention) -> Option<DiagnosticView> {
    match path.get {
        None => None,
        Some(route) => Some(
            DiagnosticView {
                path: path.path,
                operation_id: route.operation_id,
                outcome: match compiled(
                    path.path,
                    route,
                    route.operation_id,
                    convention,
                    "get"@,
                ) {
                    Ok(Some(_)) => RouteOutcome::Compiled,
                    Ok(None) => RouteOutcome::Skipped,
                    Err(e) => RouteOutcome::Aborted(e),
                },
            },
        ),
    }
}

/// The outcomes of the read routes of the first `n` paths, in order.
pub open spec fn diagnosed(paths: Seq<PathModel>, convention: Convention, n: nat) -> Seq<
    DiagnosticView,
>
    decreases n,
{
    if n == 0 || n > paths.len() {
        Seq::empty()
    } else {
        let before = diagnosed(paths, convention, (n - 1) as nat);
        match outcome_of(paths[n - 1], convention) {
            Some(diagnostic) => before.push(diagnostic),
            None => before,
        }
    }
}

/// Reports the outcome of every read route of `schema`, in the order of
/// its paths.
pub fn diagnose(schema: &Schema, fun: &FunctionDefinitionArgs) -> (result: Vec<Diagnostic>)
    ensures
        views(result@) == diagnosed(schema@.paths, fun@, schema@.paths.len()),
{
    let paths = &schema.paths.0;
    let mut result: Vec<Diagnostic> = Vec::new();
    let mut i: usize = 0;
    proof {
        lemma_views_empty(result@);
    }
    while i < paths.len()
        invariant
            i <= paths.len(),
            schema@.paths == path_models(paths@),
            views(result@) == diagnosed(schema@.paths, fun@, i as nat),
        decreases paths.len() - i,
    {
        let entry = &paths[i];
        let ghost model = schema@.paths[i as int];
        proof {
            assert(model.path == entry.0@);
        }
        match &entry.1.get {
            None => {
                proof {
                    assert(model.get is None);
                }
            },
            Some(get) => {
                proof {
                    assert(model.get == Some(get@));
                }
                let outcome = match collect_functions_in_path_route(
                    entry.0.as_str(),
                    get,
                    get.operation_id.as_str(),
                    fun,
                    "get",
                ) {
                    Ok(Some(_)) => RouteOutcome::Compiled,
                    Ok(None) => RouteOutcome::Skipped,
                    Err(e) => RouteOutcome::Aborted(e),
                };
                let diagnostic = Diagnostic {
                    path: entry.0.clone(),
                    operation_id: get.operation_id.clone(),
                    outcome,
                };
                proof {
                    lemma_views_push(result@, diagnostic);
                }
                result.push(diagnostic);
            },
        }
        i += 1;
    }
    result
}

/// How many routes compile, are left out, and stop generation.
#[derive(Debug, Clone, Copy, PartialEq, Eq, Structural)]
pub struct Summary {
    pub compiled: usize,
    pub skipped: usize,
    pub aborted: usize,
}

/// The counts of a summary.
pub struct Counts {
    pub compiled: nat,
    pub skipped: nat,
    pub aborted: nat,
}

/// How many of the first `n` diagnostics report a route that compiles, one
/// that is left out, and one that stops generation.
pub open spec fn counted(diagnostics: Seq<DiagnosticView>, n: nat) -> Counts
    decreases n,
{
    if n == 0 || n > diagnostics.len() {
        Counts { compiled: 0, skipped: 0, aborted: 0 }
    } else {
        let before = counted(diagnostics, (n - 1) as nat);
        match diagnostics[n - 1].outcome {
            RouteOutcome::Compiled => Counts { compiled: before.compiled + 1, ..before },
            RouteOutcome::Skipped => Counts { skipped: before.skipped + 1, ..before },
            RouteOutcome::Aborted(_) => Counts { aborted: before.aborted + 1, ..before },
        }
    }
}

/// Counts the outcomes of `diagnostics`. The three counts add up to the
/// number of diagnostics.
pub fn summarize(diagnostics: &Vec<Diagnostic>) -> (summary: Summary)
    ensures
        summary.compiled == counted(views(diagnostics@), diagnostics@.len()).compiled,
        summary.skipped == counted(views(diagnostics@), diagnostics@.len()).skipped,
        summary.aborted == counted(views(diagnostics@), diagnostics@.len()).aborted,
        summary.compiled + summary.skipped + summary.aborted == diagnostics@.len(),
{
    let mut summary = Summary { compiled: 0, skipped: 0, aborted: 0 };
    let mut i: usize = 0;
    while i < diagnostics.len()
        invariant
            i <= diagnostics.len(),
            summary.compiled == counted(views(diagnostics@), i as nat).compiled,
            summary.skipped == counted(views(diagnostics@), i as nat).skipped,
            summary.aborted == counted(views(diagnostics@), i as nat).aborted,
            summary.compiled + summary.skipped + summary.aborted == i,
        decreases diagnostics.len() - i,
    {
        proof {
            assert(views(diagnostics@)[i as int] == diagnostics@[i as int]@);
        }
        match diagnostics[i].outcome {
            RouteOutcome::Compiled => {
                summary.compiled = summary.compiled + 1;
            },
            RouteOutcome::Skipped => {
                summary.skipped = summary.skipped + 1;
            },
            RouteOutcome::Aborted(_) => {
                summary.aborted = summary.aborted + 1;
            },
        }
        i += 1;
    }
    summary
}

} // verus!
