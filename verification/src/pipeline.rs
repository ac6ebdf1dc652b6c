//! The per-pod output/export pipeline, as a step machine.
//!
//! For every pod, in discovery order, the pipeline sequences: classify,
//! prepare the destination, merge with the override, make the document
//! standalone, apply the mode-specific rewrite, run the plugin transforms,
//! and write the file. The library decides the order, the routing and the
//! fail-fast behaviour; the shell driving the machine performs the
//! filesystem and document work of each step and reports back whether it
//! succeeded. The first failure finishes the machine: pods already written
//! stay on disk, later pods are never reached.

use vstd::prelude::*;
use vstd::string::*;

use crate::discovery::yml_suffix;
use crate::model::{Operation, Override, Pod, PodType};
use crate::paths::{join_paths, path_join, sep};

verus! {

/// The `tasks` subdirectory name, as a sequence of characters.
pub open spec fn tasks_dir() -> Seq<char> {
    seq!['t', 'a', 's', 'k', 's']
}

/// The relative output path of a pod: `tasks/<name>.yml` for a task pod
/// under export, and `<name>.yml` in every other case — task routing is
/// export-only.
pub open spec fn spec_rel_path(op: Operation, ty: PodType, name: Seq<char>) -> Seq<char> {
    if op == Operation::Export && ty == PodType::Task {
        tasks_dir() + sep() + name + yml_suffix()
    } else {
        name + yml_suffix()
    }
}

/// The relative output paths of a run, one per pod, in order.
pub open spec fn spec_write_paths(
    op: Operation,
    names: Seq<Seq<char>>,
    types: Seq<PodType>,
) -> Seq<Seq<char>> {
    Seq::new(names.len(), |i: int| spec_rel_path(op, types[i], names[i]))
}

/// The absolute output paths of a run: each relative path joined under the
/// destination directory.
pub open spec fn spec_out_paths(
    dest: Seq<char>,
    op: Operation,
    names: Seq<Seq<char>>,
    types: Seq<PodType>,
) -> Seq<Seq<char>> {
    Seq::new(names.len(), |i: int| join_paths(dest, spec_rel_path(op, types[i], names[i])))
}

/// The absolute output paths of a run are exactly its relative paths, each
/// joined under the destination directory.
pub proof fn lemma_out_paths_join_write_paths(
    dest: Seq<char>,
    op: Operation,
    names: Seq<Seq<char>>,
    types: Seq<PodType>,
)
    ensures
        spec_out_paths(dest, op, names, types) == spec_write_paths(op, names, types).map_values(
            |p: Seq<char>| join_paths(dest, p),
        ),
{
    assert(spec_out_paths(dest, op, names, types) =~= spec_write_paths(
        op,
        names,
        types,
    ).map_values(|p: Seq<char>| join_paths(dest, p)));
}

/// Task pods are routed to `tasks/` on export and nowhere else: under
/// export a task pod's relative path is `tasks/<name>.yml`; under output,
/// and for every non-task pod in either mode, it is `<name>.yml`.
pub proof fn lemma_task_routing(name: Seq<char>)
    ensures
        spec_rel_path(Operation::Export, PodType::Task, name) == tasks_dir() + sep() + name
            + yml_suffix(),
        spec_rel_path(Operation::Output, PodType::Task, name) == name + yml_suffix(),
        forall|op: Operation| spec_rel_path(op, PodType::Service, name) == name + yml_suffix(),
{
}

/// Compute a pod's relative output path from the mode and its
/// categorization.
pub fn rel_path(op: Operation, ty: PodType, name: &str) -> (r: String)
    ensures
        r@ == spec_rel_path(op, ty, name@),
{
    let mut file_name = name.to_owned();
    file_name.append(".yml");
    proof {
        reveal_strlit(".yml");
        assert((".yml")@ =~= yml_suffix());
    }
    match (op, ty) {
        (Operation::Export, PodType::Task) => {
            proof {
                reveal_strlit("tasks");
                assert(("tasks")@ =~= tasks_dir());
            }
            let r = path_join("tasks", file_name.as_str());
            proof {
                assert(r@ =~= tasks_dir() + sep() + name@ + yml_suffix());
            }
            r
        },
        _ => file_name,
    }
}

/// The step the shell is asked to perform next for the current pod.
#[derive(Clone, Copy, Debug, PartialEq, Eq, Structural)]
pub enum Stage {
    /// Ask the pod for its categorization under the override.
    Classify,
    /// Create the missing parent directories of the output path.
    Prepare,
    /// Obtain the override-merged document for the pod.
    Merge,
    /// Rewrite the document to be self-contained relative to the pods
    /// directory.
    Standalone,
    /// Apply the mode-specific rewrite (exactly one of two).
    ModeUpdate,
    /// Run the document through the plugin transform chain.
    Transform,
    /// Serialize the document to the output path, overwriting.
    Write,
}

/// The stage after `s` within one pod's step sequence; after `Write` the
/// machine moves to the next pod's `Classify`.
pub open spec fn spec_next_stage(s: Stage) -> Stage {
    match s {
        Stage::Classify => Stage::Prepare,
        Stage::Prepare => Stage::Merge,
        Stage::Merge => Stage::Standalone,
        Stage::Standalone => Stage::ModeUpdate,
        Stage::ModeUpdate => Stage::Transform,
        Stage::Transform => Stage::Write,
        Stage::Write => Stage::Classify,
    }
}

/// Which of the two mutually exclusive mode rewrites applies.
#[derive(Clone, Copy, Debug, PartialEq, Eq, Structural)]
pub enum UpdateKind {
    /// Redirect paths into the local output tree.
    ForOutput,
    /// Resolve environment interpolation into literal values for a
    /// standalone export.
    ForExport,
}

/// One run of the output/export pipeline over a project's pods.
///
/// The shell repeatedly reads the current stage, performs that step, and
/// reports the outcome: [`Pipeline::on_classified`] after `Classify`,
/// [`Pipeline::advance`] after any other successful step, and
/// [`Pipeline::fail`] on the first error, which finishes the run.
pub struct Pipeline {
    /// The mode of this run.
    pub op: Operation,
    /// The name of the override applied to every pod.
    pub ovr_name: String,
    /// The destination directory all output paths are joined under.
    pub dest: String,
    /// The pods to process, by name, in discovery order.
    pub pod_names: Vec<String>,
    /// The index of the pod being processed.
    pub idx: usize,
    /// The next step to perform for the current pod.
    pub stage: Stage,
    /// The output path of the current pod; meaningful once it is classified.
    pub out_path: String,
    /// Whether a step failed; no further step follows.
    pub failed: bool,
    /// The categorizations reported so far, one per classified pod.
    pub types: Ghost<Seq<PodType>>,
    /// The output paths written so far, one per completed pod, in order.
    pub written: Ghost<Seq<Seq<char>>>,
}

impl Pipeline {
    /// The pod names as sequences of characters.
    pub open spec fn names_view(self) -> Seq<Seq<char>> {
        self.pod_names@.map_values(|s: String| s@)
    }

    /// The machine is finished when every pod is written or a step failed.
    pub open spec fn spec_finished(self) -> bool {
        self.failed || self.idx == self.pod_names@.len()
    }

    /// Internal consistency: the index is in range, a pod mid-sequence has
    /// been classified and routed, and `written` holds exactly the output
    /// paths of the completed pods.
    pub open spec fn wf(self) -> bool {
        &&& self.idx <= self.pod_names@.len()
        &&& (self.stage != Stage::Classify ==> self.idx < self.pod_names@.len())
        &&& self.types@.len() == (if self.stage == Stage::Classify {
            self.idx as int
        } else {
            self.idx + 1
        })
        &&& self.written@ == spec_out_paths(
            self.dest@,
            self.op,
            self.names_view().take(self.idx as int),
            self.types@.take(self.idx as int),
        )
        &&& (self.stage != Stage::Classify ==> self.out_path@ == join_paths(
            self.dest@,
            spec_rel_path(self.op, self.types@[self.idx as int], self.names_view()[self.idx as int]),
        ))
    }

    /// Start a run of mode `op` over `pods`, writing under `dest`.
    pub fn new(op: Operation, ovr: &Override, dest: String, pods: &Vec<Pod>) -> (r: Pipeline)
        ensures
            r.wf(),
            r.op == op,
            r.ovr_name@ == ovr@,
            r.dest == dest,
            r.names_view() == pods@.map_values(|p: Pod| p@),
            r.idx == 0,
            r.stage == Stage::Classify,
            !r.failed,
            r.written@ == Seq::<Seq<char>>::empty(),
    {
        let mut names: Vec<String> = Vec::new();
        let mut i: usize = 0;
        while i < pods.len()
            invariant
                i <= pods@.len(),
                names@.len() == i,
                forall|j: int| 0 <= j < i ==> names@[j]@ == pods@[j]@,
            decreases pods@.len() - i,
        {
            names.push(pods[i].name.clone());
            i += 1;
        }
        proof {
            assert(names@.map_values(|s: String| s@) =~= pods@.map_values(|p: Pod| p@));
        }
        let r = Pipeline {
            op,
            ovr_name: ovr.name.clone(),
            dest,
            pod_names: names,
            idx: 0,
            stage: Stage::Classify,
            out_path: String::new(),
            failed: false,
            types: Ghost(Seq::empty()),
            written: Ghost(Seq::empty()),
        };
        proof {
            assert(r.written@ =~= spec_out_paths(
                r.dest@,
                r.op,
                r.names_view().take(0),
                r.types@.take(0),
            ));
        }
        r
    }

    /// Whether the run is over, successfully or not.
    pub fn finished(&self) -> (r: bool)
        ensures
            r == self.spec_finished(),
    {
        self.failed || self.idx == self.pod_names.len()
    }

    /// The name of the pod being processed.
    pub fn current_pod_name(&self) -> (r: &String)
        requires
            self.wf(),
            !self.spec_finished(),
        ensures
            r@ == self.names_view()[self.idx as int],
    {
        &self.pod_names[self.idx]
    }

    /// Record the current pod's categorization, which routes it: the output
    /// path becomes the destination joined with the pod's relative path,
    /// and the next step prepares that path's parent directories.
    pub fn on_classified(&mut self, ty: PodType)
        requires
            old(self).wf(),
            !old(self).spec_finished(),
            old(self).stage == Stage::Classify,
        ensures
            final(self).wf(),
            !final(self).spec_finished(),
            final(self).stage == Stage::Prepare,
            final(self).out_path@ == join_paths(
                old(self).dest@,
                spec_rel_path(old(self).op, ty, old(self).names_view()[old(self).idx as int]),
            ),
            final(self).op == old(self).op,
            final(self).ovr_name == old(self).ovr_name,
            final(self).dest == old(self).dest,
            final(self).pod_names == old(self).pod_names,
            final(self).idx == old(self).idx,
            final(self).failed == old(self).failed,
            final(self).types@ == old(self).types@.push(ty),
            final(self).written@ == old(self).written@,
    {
        let rp = rel_path(self.op, ty, self.pod_names[self.idx].as_str());
        self.out_path = path_join(self.dest.as_str(), rp.as_str());
        self.stage = Stage::Prepare;
        proof {
            self.types@ = self.types@.push(ty);
        }
        proof {
            assert(self.types@.take(self.idx as int) =~= old(self).types@.take(self.idx as int));
        }
    }

    /// Record that the current step succeeded and move to the next one:
    /// through the pod's step sequence, and after a successful write on to
    /// the next pod (recording the path just written).
    pub fn advance(&mut self)
        requires
            old(self).wf(),
            !old(self).spec_finished(),
            old(self).stage != Stage::Classify,
        ensures
            final(self).wf(),
            final(self).op == old(self).op,
            final(self).ovr_name == old(self).ovr_name,
            final(self).dest == old(self).dest,
            final(self).pod_names == old(self).pod_names,
            final(self).failed == old(self).failed,
            old(self).stage == Stage::Write ==> {
                &&& final(self).idx == old(self).idx + 1
                &&& final(self).stage == Stage::Classify
                &&& final(self).written@ == old(self).written@.push(old(self).out_path@)
            },
            old(self).stage != Stage::Write ==> {
                &&& final(self).idx == old(self).idx
                &&& final(self).stage == spec_next_stage(old(self).stage)
                &&& final(self).written@ == old(self).written@
                &&& final(self).out_path == old(self).out_path
                &&& final(self).types@ == old(self).types@
            },
    {
        match self.stage {
            Stage::Write => {
                proof {
                    self.written@ = self.written@.push(self.out_path@);
                }
                let n = self.pod_names.len();
                assert(self.idx < n);
                self.idx = self.idx + 1;
                self.stage = Stage::Classify;
                proof {
                    assert(self.written@ =~= spec_out_paths(
                        self.dest@,
                        self.op,
                        self.names_view().take(self.idx as int),
                        self.types@.take(self.idx as int),
                    ));
                }
            },
            Stage::Classify => {
                // Unreachable: ruled out by the precondition.
                assert(false);
            },
            Stage::Prepare => {
                self.stage = Stage::Merge;
            },
            Stage::Merge => {
                self.stage = Stage::Standalone;
            },
            Stage::Standalone => {
                self.stage = Stage::ModeUpdate;
            },
            Stage::ModeUpdate => {
                self.stage = Stage::Transform;
            },
            Stage::Transform => {
                self.stage = Stage::Write;
            },
        }
    }

    /// Record that the current step failed: the run finishes at once, and
    /// pods already written stay written — there is no rollback.
    pub fn fail(&mut self)
        ensures
            final(self).failed,
            final(self).spec_finished(),
            old(self).wf() ==> final(self).wf(),
            final(self).op == old(self).op,
            final(self).ovr_name == old(self).ovr_name,
            final(self).dest == old(self).dest,
            final(self).pod_names == old(self).pod_names,
            final(self).idx == old(self).idx,
            final(self).stage == old(self).stage,
            final(self).out_path == old(self).out_path,
            final(self).types@ == old(self).types@,
            final(self).written@ == old(self).written@,
    {
        self.failed = true;
    }

    /// Which of the two mutually exclusive mode rewrites the `ModeUpdate`
    /// step applies in this run.
    pub fn update_kind(&self) -> (r: UpdateKind)
        ensures
            (r == UpdateKind::ForOutput <==> self.op == Operation::Output),
            (r == UpdateKind::ForExport <==> self.op == Operation::Export),
    {
        match self.op {
            Operation::Output => UpdateKind::ForOutput,
            Operation::Export => UpdateKind::ForExport,
        }
    }
}

/// A run that finishes without failure has written exactly the planned
/// output paths: one file per pod, at the destination joined with the pod's
/// relative path, in discovery order.
pub proof fn lemma_finished_run_writes_plan(p: Pipeline)
    requires
        p.wf(),
        p.spec_finished(),
        !p.failed,
    ensures
        p.written@ == spec_out_paths(p.dest@, p.op, p.names_view(), p.types@),
        p.written@.len() == p.pod_names@.len(),
{
    assert(p.names_view().take(p.idx as int) =~= p.names_view());
    assert(p.types@.take(p.idx as int) =~= p.types@);
}

/// Runs are deterministic: two finished, unfailed runs with the same mode,
/// destination, pods and categorizations have written exactly the same
/// paths — what a run writes is a function of the project state alone.
pub proof fn lemma_runs_agree(p1: Pipeline, p2: Pipeline)
    requires
        p1.wf(),
        p2.wf(),
        p1.spec_finished(),
        p2.spec_finished(),
        !p1.failed,
        !p2.failed,
        p1.dest@ == p2.dest@,
        p1.op == p2.op,
        p1.names_view() == p2.names_view(),
        p1.types@ == p2.types@,
    ensures
        p1.written@ == p2.written@,
{
    lemma_finished_run_writes_plan(p1);
    lemma_finished_run_writes_plan(p2);
}

} // verus!
