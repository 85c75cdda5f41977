//! Planning and assembling one solver invocation.
//!
//! The flow of an invocation is strictly linear: plan the run (which
//! rejects an unrecognized task selector before anything else is
//! attempted), write the configuration, locate the binary, run the
//! solver, then decode its output files into the tagged response.
//! The embedding application performs the filesystem, environment and
//! process steps between these functions; everything decided here —
//! paths, file lists, and the decoding — is verified.

use vstd::prelude::*;
use vstd::string::StringExecFns;
use crate::config::spec_config_text;
use crate::config::render_config;
use crate::decode::RowsOutcome;
use crate::decode::SummaryOutcome;
use crate::decode::matches_table_outcome;
use crate::decode::matches_summary_outcome;
use crate::decode::read_table;
use crate::decode::read_summary;
use crate::decode::spec_read_table;
use crate::decode::spec_read_summary;
use crate::decode::table_view;
use crate::errors::Error;
use crate::task::Task1Data;
use crate::task::Task2Data;
use crate::task::TaskKind;
use crate::task::TaskParams;
use crate::task::TaskResponse;
use crate::task::normalize_task;
use crate::task::spec_normalize;
use crate::task::respond_task1;
use crate::task::respond_task2;
use crate::text::lower_of;
use crate::text::lowercase;
use crate::text::join2;
use crate::text::join3;

verus! {

/// A planned invocation: the normalized task, the lowercased method
/// selector, and the per-run paths and configuration text.
#[derive(Debug)]
pub struct RunPlan {
    /// The normalized task family.
    pub kind: TaskKind,
    /// The minimization-method selector, lowercased; it names the
    /// method-specific output files.
    pub method: String,
    /// Whether the RMSE-sweep table is to be read.
    pub rmse_sweep: bool,
    /// The per-run working directory.
    pub run_dir: String,
    /// The directory the solver writes its output files into.
    pub data_dir: String,
    /// Where the configuration document is written.
    pub config_path: String,
    /// The rendered configuration document.
    pub config_text: String,
}

/// Plans one invocation from the parameters and the resolved
/// application data directory.  An unrecognized task selector fails
/// here, with an invalid-argument error, before any directory is
/// created, any file written, and before the solver binary is looked
/// for or run.
pub fn plan_run(params: &TaskParams, app_data_dir: &str) -> (r: Result<RunPlan, Error>)
    ensures
        match r {
            Ok(plan) => {
                &&& Some(plan.kind) == spec_normalize(lower_of(params.task@))
                &&& plan.method@ == lower_of(params.task1_method@)
                &&& plan.rmse_sweep == params.rmse_sweep
                &&& plan.run_dir@ == app_data_dir@ + "/matan"@
                &&& plan.data_dir@ == plan.run_dir@ + "/data"@
                &&& plan.config_path@ == plan.run_dir@ + "/config.ini"@
                &&& plan.config_text@ == spec_config_text(*params, plan.data_dir@)
            },
            Err(e) => e is InvalidArgument && spec_normalize(lower_of(params.task@)) is None,
        },
{
    let kind = match normalize_task(&params.task) {
        Some(k) => k,
        None => {
            return Err(Error::InvalidArgument);
        },
    };
    let method = lowercase(params.task1_method.as_str());
    let run_dir = join2(app_data_dir, "/matan");
    let data_dir = join2(run_dir.as_str(), "/data");
    let config_path = join2(run_dir.as_str(), "/config.ini");
    let config_text = render_config(params, data_dir.as_str());
    Ok(
        RunPlan {
            kind,
            method,
            rmse_sweep: params.rmse_sweep,
            run_dir,
            data_dir,
            config_path,
            config_text,
        },
    )
}

/// The sampled-curve output file of the minimization task.
pub open spec fn func_path(data_dir: Seq<char>) -> Seq<char> {
    data_dir + "/task1_func.dat"@
}

/// The method-specific sample-points output file.
pub open spec fn points_path(data_dir: Seq<char>, method: Seq<char>) -> Seq<char> {
    data_dir + "/task1_"@ + method + "_points.dat"@
}

/// The method-specific bracketing-intervals output file.
pub open spec fn intervals_path(data_dir: Seq<char>, method: Seq<char>) -> Seq<char> {
    data_dir + "/task1_"@ + method + "_interval.dat"@
}

/// The two-value summary output file of the minimization task.
pub open spec fn summary_path(data_dir: Seq<char>) -> Seq<char> {
    data_dir + "/task1_summary.dat"@
}

/// The combined curve/derivative output file of the differentiation
/// task.
pub open spec fn all_path(data_dir: Seq<char>) -> Seq<char> {
    data_dir + "/task2_all.dat"@
}

/// The RMSE-sweep output file, read only when the sweep is requested.
pub open spec fn rmse_path(data_dir: Seq<char>) -> Seq<char> {
    data_dir + "/task2_rmse.dat"@
}

/// How one requested output file is decoded.
#[derive(Debug)]
pub enum FileKind {
    /// A numeric table of the given arity.
    Table { arity: usize },
    /// The two-value summary.
    Summary,
}

/// One output file the embedding application is to read.
#[derive(Debug)]
pub struct FileRequest {
    /// The file's full path.
    pub path: String,
    /// How its text is decoded.
    pub kind: FileKind,
}

/// The number of output files a plan reads.
pub open spec fn spec_file_count(kind: TaskKind, rmse_sweep: bool) -> int {
    match kind {
        TaskKind::Minimize => 4,
        TaskKind::Differentiate => if rmse_sweep {
            2
        } else {
            1
        },
    }
}

impl RunPlan {
    /// The output files of this plan, in decode order.  The
    /// minimization task reads its four files; the differentiation
    /// task reads the combined table and — only when the sweep was
    /// requested — the RMSE table, so with the sweep off the RMSE
    /// file is never in the list, whether or not it exists on disk.
    pub fn output_files(&self) -> (r: Vec<FileRequest>)
        ensures
            r@.len() == spec_file_count(self.kind, self.rmse_sweep),
            match self.kind {
                TaskKind::Minimize => {
                    &&& r@[0].path@ == func_path(self.data_dir@) && r@[0].kind == (FileKind::Table {
                        arity: 2usize,
                    })
                    &&& r@[1].path@ == points_path(self.data_dir@, self.method@) && r@[1].kind
                        == (FileKind::Table { arity: 3usize })
                    &&& r@[2].path@ == intervals_path(self.data_dir@, self.method@) && r@[2].kind
                        == (FileKind::Table { arity: 4usize })
                    &&& r@[3].path@ == summary_path(self.data_dir@) && r@[3].kind is Summary
                },
                TaskKind::Differentiate => {
                    &&& r@[0].path@ == all_path(self.data_dir@) && r@[0].kind == (FileKind::Table {
                        arity: 6usize,
                    })
                    &&& self.rmse_sweep ==> r@[1].path@ == rmse_path(self.data_dir@) && r@[1].kind
                        == (FileKind::Table { arity: 4usize })
                },
            },
    {
        let mut r: Vec<FileRequest> = Vec::new();
        match self.kind {
            TaskKind::Minimize => {
                r.push(
                    FileRequest {
                        path: join2(self.data_dir.as_str(), "/task1_func.dat"),
                        kind: FileKind::Table { arity: 2 },
                    },
                );
                let mut points = join3(self.data_dir.as_str(), "/task1_", self.method.as_str());
                points.append("_points.dat");
                r.push(FileRequest { path: points, kind: FileKind::Table { arity: 3 } });
                let mut intervals = join3(self.data_dir.as_str(), "/task1_", self.method.as_str());
                intervals.append("_interval.dat");
                r.push(FileRequest { path: intervals, kind: FileKind::Table { arity: 4 } });
                r.push(
                    FileRequest {
                        path: join2(self.data_dir.as_str(), "/task1_summary.dat"),
                        kind: FileKind::Summary,
                    },
                );
            },
            TaskKind::Differentiate => {
                r.push(
                    FileRequest {
                        path: join2(self.data_dir.as_str(), "/task2_all.dat"),
                        kind: FileKind::Table { arity: 6 },
                    },
                );
                if self.rmse_sweep {
                    r.push(
                        FileRequest {
                            path: join2(self.data_dir.as_str(), "/task2_rmse.dat"),
                            kind: FileKind::Table { arity: 4 },
                        },
                    );
                }
            },
        }
        r
    }
}

/// What a successful minimization decode pins down: each table decoded
/// at its arity from its file's text, and the summary pair.
pub open spec fn task1_decode_ok(c: Seq<String>, d: Task1Data) -> bool {
    &&& spec_read_table(c[0]@, 2) == RowsOutcome::Rows(table_view(d.func@))
    &&& spec_read_table(c[1]@, 3) == RowsOutcome::Rows(table_view(d.points@))
    &&& spec_read_table(c[2]@, 4) == RowsOutcome::Rows(table_view(d.intervals@))
    &&& spec_read_summary(c[3]@) == SummaryOutcome::Pair(d.x_min@, d.f_min@)
}

/// Which error a failing minimization decode returns: that of the
/// first file, in decode order, whose text is malformed.
pub open spec fn task1_decode_err(plan: RunPlan, c: Seq<String>, e: Error) -> bool {
    let dd = plan.data_dir@;
    if !(spec_read_table(c[0]@, 2) is Rows) {
        matches_table_outcome(spec_read_table(c[0]@, 2), func_path(dd), e)
    } else if !(spec_read_table(c[1]@, 3) is Rows) {
        matches_table_outcome(spec_read_table(c[1]@, 3), points_path(dd, plan.method@), e)
    } else if !(spec_read_table(c[2]@, 4) is Rows) {
        matches_table_outcome(spec_read_table(c[2]@, 4), intervals_path(dd, plan.method@), e)
    } else {
        matches_summary_outcome(spec_read_summary(c[3]@), summary_path(dd), e)
    }
}

/// What a successful differentiation decode pins down: the combined
/// table, and the RMSE table exactly when the sweep was requested —
/// otherwise the RMSE rows are empty, whatever is on disk.
pub open spec fn task2_decode_ok(plan: RunPlan, c: Seq<String>, d: Task2Data) -> bool {
    &&& spec_read_table(c[0]@, 6) == RowsOutcome::Rows(table_view(d.combined@))
    &&& if plan.rmse_sweep {
        spec_read_table(c[1]@, 4) == RowsOutcome::Rows(table_view(d.rmse@))
    } else {
        d.rmse@.len() == 0
    }
}

/// Which error a failing differentiation decode returns.
pub open spec fn task2_decode_err(plan: RunPlan, c: Seq<String>, e: Error) -> bool {
    let dd = plan.data_dir@;
    if !(spec_read_table(c[0]@, 6) is Rows) {
        matches_table_outcome(spec_read_table(c[0]@, 6), all_path(dd), e)
    } else {
        plan.rmse_sweep && matches_table_outcome(spec_read_table(c[1]@, 4), rmse_path(dd), e)
    }
}

impl RunPlan {
    /// Decodes the output files' text, in the order of
    /// [`RunPlan::output_files`], into the tagged response.  The first
    /// malformed file fails the decode; on success exactly the payload
    /// the task tag names is present.
    pub fn decode_outputs(&self, contents: &Vec<String>) -> (r: Result<TaskResponse, Error>)
        requires
            contents@.len() == spec_file_count(self.kind, self.rmse_sweep),
        ensures
            match r {
                Ok(resp) => resp.wf() && match self.kind {
                    TaskKind::Minimize => match resp.task1 {
                        Some(d) => resp.task@ == "minimize"@ && task1_decode_ok(contents@, d),
                        None => false,
                    },
                    TaskKind::Differentiate => match resp.task2 {
                        Some(d) => resp.task@ == "differentiate"@ && task2_decode_ok(
                            *self,
                            contents@,
                            d,
                        ),
                        None => false,
                    },
                },
                Err(e) => match self.kind {
                    TaskKind::Minimize => task1_decode_err(*self, contents@, e),
                    TaskKind::Differentiate => task2_decode_err(*self, contents@, e),
                },
            },
    {
        match self.kind {
            TaskKind::Minimize => {
                let func_p = join2(self.data_dir.as_str(), "/task1_func.dat");
                let func = match read_table(contents[0].as_str(), func_p.as_str(), 2) {
                    Ok(t) => t,
                    Err(e) => {
                        return Err(e);
                    },
                };
                let mut points_p = join3(self.data_dir.as_str(), "/task1_", self.method.as_str());
                points_p.append("_points.dat");
                let points = match read_table(contents[1].as_str(), points_p.as_str(), 3) {
                    Ok(t) => t,
                    Err(e) => {
                        return Err(e);
                    },
                };
                let mut intervals_p = join3(
                    self.data_dir.as_str(),
                    "/task1_",
                    self.method.as_str(),
                );
                intervals_p.append("_interval.dat");
                let intervals = match read_table(contents[2].as_str(), intervals_p.as_str(), 4) {
                    Ok(t) => t,
                    Err(e) => {
                        return Err(e);
                    },
                };
                let summary_p = join2(self.data_dir.as_str(), "/task1_summary.dat");
                let (x_min, f_min) = match read_summary(contents[3].as_str(), summary_p.as_str()) {
                    Ok(p) => p,
                    Err(e) => {
                        return Err(e);
                    },
                };
                Ok(respond_task1(Task1Data { func, points, intervals, x_min, f_min }))
            },
            TaskKind::Differentiate => {
                let all_p = join2(self.data_dir.as_str(), "/task2_all.dat");
                let combined = match read_table(contents[0].as_str(), all_p.as_str(), 6) {
                    Ok(t) => t,
                    Err(e) => {
                        return Err(e);
                    },
                };
                let rmse: Vec<Vec<String>> = if self.rmse_sweep {
                    let rmse_p = join2(self.data_dir.as_str(), "/task2_rmse.dat");
                    match read_table(contents[1].as_str(), rmse_p.as_str(), 4) {
                        Ok(t) => t,
                        Err(e) => {
                            return Err(e);
                        },
                    }
                } else {
                    Vec::new()
                };
                Ok(respond_task2(Task2Data { combined, rmse }))
            },
        }
    }
}

} // verus!
