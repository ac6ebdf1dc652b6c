//! The small value types of the project model: overrides, pods, pod
//! categorization, pipeline modes, default tags, the plugin manager record,
//! and the error taxonomy.

use vstd::prelude::*;
use vstd::string::*;

verus! {

/// A named environment overlay (e.g. `development`, `production`, `test`).
/// An override is identified solely by its name, which discovery derives
/// from a subdirectory of `pods/overrides/`.
pub struct Override {
    pub name: String,
}

impl View for Override {
    type V = Seq<char>;

    open spec fn view(&self) -> Seq<char> {
        self.name@
    }
}

impl Override {
    pub fn new(name: String) -> (r: Override)
        ensures
            r@ == name@,
    {
        Override { name }
    }

    /// The name of this override.
    pub fn name(&self) -> (r: &str)
        ensures
            r@ == self@,
    {
        self.name.as_str()
    }
}

/// A named group of container service definitions, identified by the stem of
/// a `*.yml` file directly under `pods/`. Merging the pod's definition with
/// an override, and categorizing it, are collaborator work done outside the
/// library; the library holds only what its own decisions read.
pub struct Pod {
    pub name: String,
}

impl View for Pod {
    type V = Seq<char>;

    open spec fn view(&self) -> Seq<char> {
        self.name@
    }
}

impl Pod {
    pub fn new(name: String) -> (r: Pod)
        ensures
            r@ == name@,
    {
        Pod { name }
    }

    /// The name of this pod.
    pub fn name(&self) -> (r: &str)
        ensures
            r@ == self@,
    {
        self.name.as_str()
    }
}

/// The categorization a pod reports for a given override. Only `Task`
/// (a one-shot job, e.g. a migration) affects routing; every other pod is a
/// long-running service.
#[derive(Clone, Copy, Debug, PartialEq, Eq, Structural)]
pub enum PodType {
    /// A long-running service.
    Service,
    /// A one-shot job, routed to `tasks/` on export only.
    Task,
}

/// The two pipeline modes: regenerate the working tree, or take a standalone
/// snapshot.
#[derive(Clone, Copy, Debug, PartialEq, Eq, Structural)]
pub enum Operation {
    /// Update the project's local output tree.
    Output,
    /// Export the project as a set of standalone files.
    Export,
}

/// Project-wide fallback image tags, used to pin otherwise-untagged images
/// for reproducible exports. The substitution itself is collaborator work;
/// the library records the configured pairs and whether any were configured.
pub struct DefaultTags {
    /// `(image, tag)` pairs.
    pub tags: Vec<(String, String)>,
}

impl DefaultTags {
    pub fn new(tags: Vec<(String, String)>) -> (r: DefaultTags)
        ensures
            r.tags == tags,
    {
        DefaultTags { tags }
    }
}

/// The record of the git repositories the project's pods refer to, derived
/// once when the project is constructed. Reading the pod files for
/// repository references, and cloning into the source directory, are
/// collaborator work; the library records what was derived.
pub struct Repos {
    /// Identifiers of the referenced repositories.
    pub repo_ids: Vec<String>,
}

impl Repos {
    pub fn new(repo_ids: Vec<String>) -> (r: Repos)
        ensures
            r.repo_ids == repo_ids,
    {
        Repos { repo_ids }
    }
}

/// The record of a project's plugin transform chain, in order. Running the
/// transforms is collaborator work; the library tracks which plugins were
/// registered and that the manager was installed exactly once.
pub struct PluginManager {
    /// Names of the registered plugins, in chain order.
    pub plugin_names: Vec<String>,
}

impl PluginManager {
    pub fn new(plugin_names: Vec<String>) -> (r: PluginManager)
        ensures
            r.plugin_names == plugin_names,
    {
        PluginManager { plugin_names }
    }
}

/// The error taxonomy of the core.
#[derive(Debug)]
pub enum Error {
    /// A filesystem operation failed; carries the offending path.
    Io { path: String },
    /// Malformed configuration, e.g. a root directory with no nameable final
    /// path component.
    Config { message: String },
    /// `export` refuses to write into a destination that already exists.
    DestinationExists { path: String },
    /// An opaque error propagated unchanged from a merge, rewrite or plugin
    /// collaborator.
    Collaborator { message: String },
}

impl Error {
    /// A short description for the terminal, carrying the offending path
    /// or the propagated message.
    pub fn describe(&self) -> (r: String)
        ensures
            self matches Error::Io { path } ==> r@ == "cannot access "@ + path@,
            self matches Error::Config { message } ==> r@ == message@,
            self matches Error::DestinationExists { path } ==> r@ == "the directory "@ + path@
                + " already exists"@,
            self matches Error::Collaborator { message } ==> r@ == message@,
    {
        match self {
            Error::Io { path } => {
                let mut r = "cannot access ".to_owned();
                r.append(path.as_str());
                r
            },
            Error::Config { message } => message.clone(),
            Error::DestinationExists { path } => {
                let mut r = "the directory ".to_owned();
                r.append(path.as_str());
                r.append(" already exists");
                r
            },
            Error::Collaborator { message } => message.clone(),
        }
    }
}

} // verus!
