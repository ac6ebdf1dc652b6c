//! The project aggregate: the discovered pods and overrides, the project's
//! directories and name, optional default tags, and the plugin manager
//! record — plus the `output` and `export` entry points that plan a
//! pipeline run.
//!
//! Construction is two-phase. Phase one assembles the project from the
//! discovery listings with the plugin manager slot empty; phase two installs
//! the manager, built by its own collaborator from a read-only view of the
//! phase-one value, exactly once. The manager accessor and the entry points
//! demand that phase two is complete: calling them earlier is a
//! construction-order bug, not a recoverable condition.

use vstd::prelude::*;
use vstd::string::*;

use crate::discovery::{DirEntry, find_overrides, find_pods, override_names, pod_names};
use crate::model::{DefaultTags, Error, Operation, Override, PluginManager, Pod, PodType, Repos};
use crate::paths::{final_component, join_paths, last_segment, nameable, path_join, str_eq};
use crate::pipeline::{Pipeline, Stage, spec_rel_path, spec_write_paths};

verus! {

/// The `pods` directory name, as a sequence of characters.
pub open spec fn pods_segment() -> Seq<char> {
    seq!['p', 'o', 'd', 's']
}

/// A project: a root directory with a `pods` subdirectory of pod
/// definitions and overrides, an output directory for the regenerated
/// working tree, and a source directory for cloned repositories.
pub struct Project {
    /// The project's name. Defaults to the final path component of the
    /// root directory, but can be overridden.
    pub name: String,
    /// The directory containing the project.
    pub root_dir: String,
    /// Where cloned git repositories are kept.
    pub src_dir: String,
    /// The directory the transformed pods are written under.
    pub output_dir: String,
    /// The pods of this project, in discovery order.
    pub pods: Vec<Pod>,
    /// The overrides of this project, in discovery order.
    pub overrides: Vec<Override>,
    /// The git repositories the pods refer to, derived once at
    /// construction.
    pub repos: Repos,
    /// Docker image tags to use for images that lack one.
    pub default_tags: Option<DefaultTags>,
    /// The plugin manager. Present from the end of phase-two construction
    /// on, and installed exactly once.
    pub plugins: Option<PluginManager>,
}

/// The minimal outward projection of a project for downstream document
/// templates: its name, and nothing of the internal state.
pub struct ProjectInfo {
    pub name: String,
}

impl Project {
    /// Phase one of construction: discover the overrides and pods from the
    /// two listings, resolve the project's name from the absolute root
    /// path's final component, and assemble the project with its plugin
    /// manager slot empty. The repository set is derived from the pod
    /// files by its own collaborator and handed in. Fails exactly when the
    /// absolute root has no nameable final component (e.g. the filesystem
    /// root).
    pub fn from_dirs(
        root_dir: &str,
        src_dir: &str,
        output_dir: &str,
        absolute_root: &str,
        override_entries: &Vec<DirEntry>,
        pod_entries: &Vec<DirEntry>,
        repos: Repos,
    ) -> (r: Result<Project, Error>)
        ensures
            r is Ok <==> nameable(absolute_root@),
            r matches Ok(p) ==> {
                &&& p.name@ == last_segment(absolute_root@)
                &&& p.root_dir@ == root_dir@
                &&& p.src_dir@ == src_dir@
                &&& p.output_dir@ == output_dir@
                &&& p.pods@.map_values(|q: Pod| q@) == pod_names(pod_entries@)
                &&& p.overrides@.map_values(|o: Override| o@) == override_names(
                    override_entries@,
                )
                &&& p.repos == repos
                &&& p.default_tags is None
                &&& p.plugins is None
            },
            r matches Err(e) ==> e is Config,
    {
        let overrides = find_overrides(override_entries);
        let pods = find_pods(pod_entries);
        match final_component(absolute_root) {
            None => {
                let mut message = "cannot find a directory name for ".to_owned();
                message.append(root_dir);
                Err(Error::Config { message })
            },
            Some(name) => Ok(
                Project {
                    name,
                    root_dir: root_dir.to_owned(),
                    src_dir: src_dir.to_owned(),
                    output_dir: output_dir.to_owned(),
                    pods,
                    overrides,
                    repos,
                    default_tags: None,
                    plugins: None,
                },
            ),
        }
    }

    /// Phase two of construction: install the plugin manager. Happens
    /// exactly once — the slot must still be empty — and changes nothing
    /// else.
    pub fn install_plugins(&mut self, plugins: PluginManager)
        requires
            old(self).plugins is None,
        ensures
            final(self).plugins == Some(plugins),
            final(self).name == old(self).name,
            final(self).root_dir == old(self).root_dir,
            final(self).src_dir == old(self).src_dir,
            final(self).output_dir == old(self).output_dir,
            final(self).pods == old(self).pods,
            final(self).overrides == old(self).overrides,
            final(self).repos == old(self).repos,
            final(self).default_tags == old(self).default_tags,
    {
        self.plugins = Some(plugins);
    }

    /// The plugin manager. Demands that phase-two construction is
    /// complete.
    pub fn plugins(&self) -> (r: &PluginManager)
        requires
            self.plugins is Some,
        ensures
            self.plugins == Some(*r),
    {
        self.plugins.as_ref().unwrap()
    }

    /// The name of this project.
    pub fn name(&self) -> (r: &str)
        ensures
            r@ == self.name@,
    {
        self.name.as_str()
    }

    /// Set the name of this project, replacing the default.
    pub fn set_name(&mut self, name: &str)
        ensures
            final(self).name@ == name@,
            final(self).root_dir == old(self).root_dir,
            final(self).src_dir == old(self).src_dir,
            final(self).output_dir == old(self).output_dir,
            final(self).pods == old(self).pods,
            final(self).overrides == old(self).overrides,
            final(self).repos == old(self).repos,
            final(self).default_tags == old(self).default_tags,
            final(self).plugins == old(self).plugins,
    {
        self.name = name.to_owned();
    }

    /// The root directory of this project.
    pub fn root_dir(&self) -> (r: &str)
        ensures
            r@ == self.root_dir@,
    {
        self.root_dir.as_str()
    }

    /// The source directory of this project, where cloned git repositories
    /// are put.
    pub fn src_dir(&self) -> (r: &str)
        ensures
            r@ == self.src_dir@,
    {
        self.src_dir.as_str()
    }

    /// The output directory of this project.
    pub fn output_dir(&self) -> (r: &str)
        ensures
            r@ == self.output_dir@,
    {
        self.output_dir.as_str()
    }

    /// The directory the pods are defined in: `<root>/pods`.
    pub fn pods_dir(&self) -> (r: String)
        ensures
            r@ == join_paths(self.root_dir@, pods_segment()),
    {
        proof {
            reveal_strlit("pods");
            assert(("pods")@ =~= pods_segment());
        }
        path_join(self.root_dir.as_str(), "pods")
    }

    /// The directory the pods are regenerated under: `<output>/pods`.
    pub fn output_pods_dir(&self) -> (r: String)
        ensures
            r@ == join_paths(self.output_dir@, pods_segment()),
    {
        proof {
            reveal_strlit("pods");
            assert(("pods")@ =~= pods_segment());
        }
        path_join(self.output_dir.as_str(), "pods")
    }

    /// Iterate over the pods of this project, in discovery order.
    pub fn pods<'a>(&'a self) -> (r: Pods<'a>)
        ensures
            r.items == &self.pods,
            r.index == 0,
            r.wf(),
    {
        Pods { items: &self.pods, index: 0 }
    }

    /// Look up the named pod: the first pod with that name, if any.
    pub fn pod<'a>(&'a self, name: &str) -> (r: Option<&'a Pod>)
        ensures
            r is Some <==> (exists|i: int| 0 <= i < self.pods@.len() && self.pods@[i]@ == name@),
            r matches Some(p) ==> (exists|i: int|
                {
                    &&& 0 <= i < self.pods@.len()
                    &&& *p == self.pods@[i]
                    &&& self.pods@[i]@ == name@
                    &&& forall|j: int| 0 <= j < i ==> self.pods@[j]@ != name@
                }),
    {
        let items = &self.pods;
        let mut k: usize = 0;
        while k < items.len()
            invariant
                items == &self.pods,
                k <= items@.len(),
                forall|j: int| 0 <= j < k ==> self.pods@[j]@ != name@,
            decreases items@.len() - k,
        {
            if str_eq(items[k].name.as_str(), name) {
                proof {
                    let i = k as int;
                    assert(0 <= i < self.pods@.len() && self.pods@[i]@ == name@);
                }
                return Some(&items[k]);
            }
            k += 1;
        }
        None
    }

    /// Iterate over the overrides of this project, in discovery order.
    pub fn overrides<'a>(&'a self) -> (r: Overrides<'a>)
        ensures
            r.items == &self.overrides,
            r.index == 0,
            r.wf(),
    {
        Overrides { items: &self.overrides, index: 0 }
    }

    /// Look up the named override: the first override with that name, if
    /// any. (Named `ovr` because `override` is a keyword.)
    pub fn ovr<'a>(&'a self, name: &str) -> (r: Option<&'a Override>)
        ensures
            r is Some <==> (exists|i: int|
                0 <= i < self.overrides@.len() && self.overrides@[i]@ == name@),
            r matches Some(o) ==> (exists|i: int|
                {
                    &&& 0 <= i < self.overrides@.len()
                    &&& *o == self.overrides@[i]
                    &&& self.overrides@[i]@ == name@
                    &&& forall|j: int| 0 <= j < i ==> self.overrides@[j]@ != name@
                }),
    {
        let items = &self.overrides;
        let mut k: usize = 0;
        while k < items.len()
            invariant
                items == &self.overrides,
                k <= items@.len(),
                forall|j: int| 0 <= j < k ==> self.overrides@[j]@ != name@,
            decreases items@.len() - k,
        {
            if str_eq(items[k].name.as_str(), name) {
                proof {
                    let i = k as int;
                    assert(0 <= i < self.overrides@.len() && self.overrides@[i]@ == name@);
                }
                return Some(&items[k]);
            }
            k += 1;
        }
        None
    }

    /// The git repositories associated with this project.
    pub fn repos(&self) -> (r: &Repos)
        ensures
            r == &self.repos,
    {
        &self.repos
    }

    /// The default tags configured for this project, if any.
    pub fn default_tags(&self) -> (r: Option<&DefaultTags>)
        ensures
            r is Some <==> self.default_tags is Some,
            r matches Some(t) ==> self.default_tags == Some(*t),
    {
        self.default_tags.as_ref()
    }

    /// Configure the default tags for this project.
    pub fn set_default_tags(&mut self, tags: DefaultTags)
        ensures
            final(self).default_tags == Some(tags),
            final(self).name == old(self).name,
            final(self).root_dir == old(self).root_dir,
            final(self).src_dir == old(self).src_dir,
            final(self).output_dir == old(self).output_dir,
            final(self).pods == old(self).pods,
            final(self).overrides == old(self).overrides,
            final(self).repos == old(self).repos,
            final(self).plugins == old(self).plugins,
    {
        self.default_tags = Some(tags);
    }

    /// The outward projection of this project for generator templates:
    /// only the name.
    pub fn to_json(&self) -> (r: ProjectInfo)
        ensures
            r.name@ == self.name@,
    {
        ProjectInfo { name: self.name.clone() }
    }

    /// Plan a regeneration of the working tree: the returned flag says
    /// whether the existing `<output>/pods` tree must be deleted first
    /// (exactly when the caller reports it exists; a failed deletion is an
    /// `Io` error carrying that path), and the pipeline then writes every
    /// pod under `<output>/pods` in `Output` mode.
    pub fn output(&self, ovr: &Override, out_pods_exists: bool) -> (r: (bool, Pipeline))
        requires
            self.plugins is Some,
        ensures
            r.0 == out_pods_exists,
            r.1.wf(),
            r.1.op == Operation::Output,
            r.1.ovr_name@ == ovr@,
            r.1.dest@ == join_paths(self.output_dir@, pods_segment()),
            r.1.names_view() == self.pods@.map_values(|p: Pod| p@),
            r.1.idx == 0,
            r.1.stage == Stage::Classify,
            !r.1.failed,
            r.1.written@ == Seq::<Seq<char>>::empty(),
    {
        let dest = self.output_pods_dir();
        (out_pods_exists, Pipeline::new(Operation::Output, ovr, dest, &self.pods))
    }

    /// Plan an export. Refuses with `DestinationExists`, before any action
    /// is planned or taken, exactly when the caller reports that the
    /// destination already exists. Otherwise the returned flag asks for a
    /// non-fatal advisory exactly when no default tags are configured, and
    /// the pipeline writes every pod under the destination in `Export`
    /// mode.
    pub fn export(&self, ovr: &Override, export_dir: &str, dest_exists: bool) -> (r: Result<
        (bool, Pipeline),
        Error,
    >)
        requires
            self.plugins is Some,
        ensures
            r is Err <==> dest_exists,
            r matches Err(e) ==> (e matches Error::DestinationExists { path } && path@
                == export_dir@),
            r matches Ok(wp) ==> {
                &&& wp.0 == (self.default_tags is None)
                &&& wp.1.wf()
                &&& wp.1.op == Operation::Export
                &&& wp.1.ovr_name@ == ovr@
                &&& wp.1.dest@ == export_dir@
                &&& wp.1.names_view() == self.pods@.map_values(|p: Pod| p@)
                &&& wp.1.idx == 0
                &&& wp.1.stage == Stage::Classify
                &&& !wp.1.failed
                &&& wp.1.written@ == Seq::<Seq<char>>::empty()
            },
    {
        if dest_exists {
            return Err(Error::DestinationExists { path: export_dir.to_owned() });
        }
        let warn = self.default_tags.is_none();
        Ok((warn, Pipeline::new(Operation::Export, ovr, export_dir.to_owned(), &self.pods)))
    }
}

/// An iterator over the pods in a project.
pub struct Pods<'a> {
    /// The pods iterated over.
    pub items: &'a Vec<Pod>,
    /// The position of the next pod to yield.
    pub index: usize,
}

impl<'a> Pods<'a> {
    /// The position never runs past the end.
    pub open spec fn wf(self) -> bool {
        self.index <= self.items@.len()
    }

    /// The next pod, in discovery order, if any remains.
    pub fn next(&mut self) -> (r: Option<&'a Pod>)
        requires
            old(self).wf(),
        ensures
            final(self).wf(),
            final(self).items == old(self).items,
            old(self).index < old(self).items@.len() ==> (r matches Some(p) && *p == old(
                self,
            ).items@[old(self).index as int] && final(self).index == old(self).index + 1),
            old(self).index >= old(self).items@.len() ==> (r is None && final(self).index == old(
                self,
            ).index),
    {
        let items = self.items;
        if self.index < items.len() {
            let p = &items[self.index];
            self.index = self.index + 1;
            Some(p)
        } else {
            None
        }
    }
}

/// An iterator over the overrides in a project.
pub struct Overrides<'a> {
    /// The overrides iterated over.
    pub items: &'a Vec<Override>,
    /// The position of the next override to yield.
    pub index: usize,
}

impl<'a> Overrides<'a> {
    /// The position never runs past the end.
    pub open spec fn wf(self) -> bool {
        self.index <= self.items@.len()
    }

    /// The next override, in discovery order, if any remains.
    pub fn next(&mut self) -> (r: Option<&'a Override>)
        requires
            old(self).wf(),
        ensures
            final(self).wf(),
            final(self).items == old(self).items,
            old(self).index < old(self).items@.len() ==> (r matches Some(o) && *o == old(
                self,
            ).items@[old(self).index as int] && final(self).index == old(self).index + 1),
            old(self).index >= old(self).items@.len() ==> (r is None && final(self).index == old(
                self,
            ).index),
    {
        let items = self.items;
        if self.index < items.len() {
            let o = &items[self.index];
            self.index = self.index + 1;
            Some(o)
        } else {
            None
        }
    }
}

/// The files under the working tree's pods directory after a run of
/// `output` over pods with the given names and categorizations: exactly the
/// planned relative paths, whatever stood there before — the prior tree is
/// deleted first.
pub open spec fn tree_after_output(
    prior: Set<Seq<char>>,
    names: Seq<Seq<char>>,
    types: Seq<PodType>,
) -> Set<Seq<char>> {
    spec_write_paths(Operation::Output, names, types).to_set()
}

/// Regenerating the working tree is idempotent: with the pods and their
/// categorizations unchanged, a second run produces the same tree as the
/// first; and the resulting tree holds a file exactly when some current pod
/// produces it, so no stale file from an earlier pod set survives.
pub proof fn lemma_output_idempotent(
    prior: Set<Seq<char>>,
    names: Seq<Seq<char>>,
    types: Seq<PodType>,
)
    requires
        names.len() == types.len(),
    ensures
        tree_after_output(tree_after_output(prior, names, types), names, types)
            == tree_after_output(prior, names, types),
        forall|f: Seq<char>|
            tree_after_output(prior, names, types).contains(f) <==> (exists|i: int|
                0 <= i < names.len() && f == spec_rel_path(Operation::Output, types[i], names[i])),
{
    let s = spec_write_paths(Operation::Output, names, types);
    assert forall|f: Seq<char>|
        tree_after_output(prior, names, types).contains(f) implies (exists|i: int|
        0 <= i < names.len() && f == spec_rel_path(Operation::Output, types[i], names[i])) by {
        let i = choose|i: int| 0 <= i < s.len() && s[i] == f;
        assert(0 <= i < names.len() && f == spec_rel_path(Operation::Output, types[i], names[i]));
    };
    assert forall|f: Seq<char>|
        (exists|i: int|
            0 <= i < names.len() && f == spec_rel_path(
                Operation::Output,
                types[i],
                names[i],
            )) implies tree_after_output(prior, names, types).contains(f) by {
        let i = choose|i: int|
            0 <= i < names.len() && f == spec_rel_path(Operation::Output, types[i], names[i]);
        assert(s[i] == f);
        assert(s.contains(f));
    };
}

} // verus!
