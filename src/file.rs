use vstd::prelude::*;
use vstd::string::*;

use crate::jobs::{Status, StatusView};
use crate::text::{debug_quoted, quoted};

verus! {

/// Why a file job failed.
#[derive(Clone, Debug, PartialEq, Eq)]
pub enum Error {
    CreateLink { path: String, src: String, reason: String },
    CreatePath { path: String, reason: String },
    PathExists { path: String },
    RemovePath { path: String, reason: String },
    SrcNotFound { src: String },
    StateRequiresSrc { state: FileState },
    StateNotImplemented { state: FileState },
    WritePath { path: String, reason: String },
}

/// The state that a file job declares for its path.
#[derive(Clone, Copy, Debug, PartialEq, Eq, Structural)]
pub enum FileState {
    Absent,
    Directory,
    File,
    Hard,
    Link,
    Touch,
}

} // verus!

verus! {

/// A job that holds a path in a declared state.
#[derive(Debug)]
pub struct File {
    /// Whether conflicting things in the way may be removed; unset means no.
    pub force: Option<bool>,
    pub path: String,
    /// What a link points to; required for [`FileState::Link`].
    pub src: Option<String>,
    pub state: FileState,
}

/// What is seen of one path on the filesystem.
#[derive(Clone, Debug)]
pub struct PathFacts {
    /// Something is there, a link included, even one that points nowhere.
    pub present: bool,
    /// What is there is a symbolic link.
    pub is_symlink: bool,
    /// Following links, something is there.
    pub exists: bool,
    /// Following links, a directory is there.
    pub is_dir: bool,
    /// Where the link points, when the path is a symbolic link that could be read.
    pub link_target: Option<String>,
}

/// The parent directory of a job's path, and what is seen of it.
#[derive(Clone, Debug)]
pub struct ParentFacts {
    pub path: String,
    pub facts: PathFacts,
}

/// What a file job looks at before it acts: its path, its source (all false when it has
/// none), and the parent of its path, when the path has one.
#[derive(Clone, Debug)]
pub struct Observation {
    pub path: PathFacts,
    pub src: PathFacts,
    pub parent: Option<ParentFacts>,
}

/// One change to the filesystem.
#[derive(Clone, Debug, PartialEq, Eq)]
pub enum FsAction {
    /// Remove a directory and all it holds.
    RemoveDirAll(String),
    RemoveFile(String),
    /// Create a directory and any missing parents.
    CreateDirAll(String),
    /// Create at `path` a symbolic link that points to `src`.
    Symlink { src: String, path: String },
    /// Create an empty file.
    WriteEmpty(String),
}

/// The changes a file job makes, in order, and the status it ends with once they all
/// succeed.
#[derive(Debug)]
pub struct FilePlan {
    pub actions: Vec<FsAction>,
    pub status: Status,
}

/// The model of a plan: its actions and its status.
pub type PlanView = (Seq<FsAction>, StatusView);

/// Two paths name the same place, by the components that std's `Path` compares.
pub uninterp spec fn same_path(a: Seq<char>, b: Seq<char>) -> bool;

/// Relies on `<Path as PartialEq>::eq`: whether two paths have the same components.
#[verifier::external_body]
fn paths_equal(a: &str, b: &str) -> (r: bool)
    ensures
        r == same_path(a@, b@),
{
    std::path::Path::new(a) == std::path::Path::new(b)
}

/// A link at `path` already points to `src`: the same text, or the same path.
pub open spec fn points_to(target: Seq<char>, src: Seq<char>) -> bool {
    target == src || same_path(src, target)
}

/// Making `p` absent: nothing when nothing is there (following links), else removing it.
pub open spec fn absent_plan(p: String, f: PathFacts) -> PlanView {
    if !f.exists {
        (Seq::empty(), StatusView::NoChange(p@))
    } else if f.is_dir {
        (seq![FsAction::RemoveDirAll(p)], StatusView::Changed(p@, "absent"@))
    } else {
        (seq![FsAction::RemoveFile(p)], StatusView::Changed(p@, "absent"@))
    }
}

/// Making `p` a directory; something else in the way is removed only with `force`.
pub open spec fn directory_plan(p: String, f: PathFacts, force: bool) -> Result<PlanView, Error> {
    let to = "directory: "@ + p@;
    if f.is_dir {
        Ok((Seq::empty(), StatusView::NoChange(to)))
    } else if f.exists {
        if !force {
            Err(Error::PathExists { path: p })
        } else {
            Ok((absent_plan(p, f).0.push(FsAction::CreateDirAll(p)), StatusView::Changed("not directory"@, to)))
        }
    } else {
        Ok((seq![FsAction::CreateDirAll(p)], StatusView::Changed("absent"@, to)))
    }
}

/// Making sure that the parent of a path is a directory: the actions this takes.
pub open spec fn parent_actions(parent: Option<ParentFacts>, force: bool) -> Result<Seq<FsAction>, Error> {
    match parent {
        None => Ok(Seq::empty()),
        Some(pp) => match directory_plan(pp.path, pp.facts, force) {
            Ok(pv) => Ok(pv.0),
            Err(e) => Err(e),
        },
    }
}

/// Making `d` a symbolic link to `s`.
pub open spec fn link_plan(s: String, d: String, force: bool, obs: Observation) -> Result<PlanView, Error> {
    let linked = s@ + " -> "@ + d@;
    if !obs.src.present && !force {
        Err(Error::SrcNotFound { src: s })
    } else if obs.path.link_target is Some && points_to(obs.path.link_target.unwrap()@, s@) {
        Ok((Seq::empty(), StatusView::NoChange(obs.path.link_target.unwrap()@ + " -> "@ + d@)))
    } else if obs.path.link_target is Some && !force {
        Err(Error::PathExists { path: d })
    } else {
        let before = match obs.path.link_target {
            Some(t) => t@ + " -> "@ + d@,
            None => "absent"@,
        };
        if obs.path.present {
            if !force {
                Err(Error::PathExists { path: d })
            } else {
                let previously = if obs.path.is_symlink { before } else { "existing: "@ + d@ };
                Ok((
                    absent_plan(d, obs.path).0.push(FsAction::Symlink { src: s, path: d }),
                    StatusView::Changed(previously, linked),
                ))
            }
        } else {
            match parent_actions(obs.parent, force) {
                Ok(a) => Ok((a.push(FsAction::Symlink { src: s, path: d }), StatusView::Changed(before, linked))),
                Err(e) => Err(e),
            }
        }
    }
}

/// Making sure a file is at `p`: an empty one is written when nothing is there.
pub open spec fn touch_plan(p: String, obs: Observation) -> Result<PlanView, Error> {
    if obs.path.exists {
        Ok((Seq::empty(), StatusView::NoChange(p@)))
    } else {
        match parent_actions(obs.parent, false) {
            Ok(a) => Ok((a.push(FsAction::WriteEmpty(p)), StatusView::Changed("absent"@, p@))),
            Err(e) => Err(e),
        }
    }
}

/// The declared state holds of what is seen of the job's path.
pub open spec fn declared(file: File, f: PathFacts) -> bool {
    match file.state {
        FileState::Absent => !f.exists,
        FileState::Directory => f.is_dir,
        FileState::Touch => f.exists,
        FileState::Link => file.src is Some && f.link_target is Some && points_to(
            f.link_target.unwrap()@,
            file.src.unwrap()@,
        ),
        _ => false,
    }
}

/// What is seen of the job's path once its changes took effect.
pub open spec fn settled_facts(file: File, obs: Observation) -> PathFacts {
    if declared(file, obs.path) {
        obs.path
    } else {
        match file.state {
            FileState::Absent => PathFacts {
                present: false,
                is_symlink: false,
                exists: false,
                is_dir: false,
                link_target: None,
            },
            FileState::Directory => PathFacts {
                present: true,
                is_symlink: false,
                exists: true,
                is_dir: true,
                link_target: None,
            },
            FileState::Touch => PathFacts { present: true, exists: true, is_dir: false, ..obs.path },
            FileState::Link => PathFacts {
                present: true,
                is_symlink: true,
                exists: obs.src.exists,
                is_dir: obs.src.is_dir,
                link_target: file.src,
            },
            _ => obs.path,
        }
    }
}

/// A file job that succeeds reports a change exactly when its path was not yet in the
/// declared state; afterwards the path is in that state, and running the job again
/// changes nothing and reports no change.
pub proof fn lemma_file_job_idempotent(file: File, obs: Observation)
    requires
        file.spec_plan(obs) is Ok,
    ensures
        (file.spec_plan(obs)->Ok_0.1 is Changed) == !declared(file, obs.path),
        declared(file, settled_facts(file, obs)),
        file.spec_plan(Observation { path: settled_facts(file, obs), ..obs }) is Ok,
        file.spec_plan(Observation { path: settled_facts(file, obs), ..obs })->Ok_0.0.len() == 0,
        file.spec_plan(Observation { path: settled_facts(file, obs), ..obs })->Ok_0.1 is NoChange,
{
}

pub open spec fn plan_view(r: Result<FilePlan, Error>) -> Result<PlanView, Error> {
    match r {
        Ok(p) => Ok((p.actions@, p.status@)),
        Err(e) => Err(e),
    }
}

impl File {
    pub open spec fn spec_force(&self) -> bool {
        self.force == Some(true)
    }

    /// What executing the job does on a filesystem as observed.
    pub open spec fn spec_plan(&self, obs: Observation) -> Result<PlanView, Error> {
        match self.state {
            FileState::Absent => Ok(absent_plan(self.path, obs.path)),
            FileState::Directory => directory_plan(self.path, obs.path, self.spec_force()),
            FileState::Link => match self.src {
                Some(s) => link_plan(s, self.path, self.spec_force(), obs),
                None => Err(Error::StateRequiresSrc { state: self.state }),
            },
            FileState::Touch => touch_plan(self.path, obs),
            _ => Err(Error::StateNotImplemented { state: self.state }),
        }
    }

    /// Decides what executing the job does on the filesystem as `obs` shows it: the
    /// changes to make, in order, and the status once they all succeed; or the error
    /// that stops the job before any change.
    pub fn execute(&self, obs: &Observation) -> (r: Result<FilePlan, Error>)
        ensures
            plan_view(r) == self.spec_plan(*obs),
    {
        let force = match self.force {
            Some(f) => f,
            None => false,
        };
        match self.state {
            FileState::Absent => Ok(plan_absent(&self.path, &obs.path)),
            FileState::Directory => plan_directory(&self.path, &obs.path, force),
            FileState::Link => match &self.src {
                Some(s) => plan_link(s, &self.path, force, obs),
                None => Err(Error::StateRequiresSrc { state: self.state }),
            },
            FileState::Touch => plan_touch(&self.path, obs),
            _ => Err(Error::StateNotImplemented { state: self.state }),
        }
    }
}

/// `"f"` when forced, else nothing.
pub open spec fn force_flag(force: bool) -> Seq<char> {
    if force {
        "f"@
    } else {
        Seq::empty()
    }
}

/// The multi-line form of an optional field's value: `None`, or `Some(` with the value
/// on a line of its own.
pub open spec fn pretty_option(v: Option<Seq<char>>) -> Seq<char> {
    match v {
        Some(t) => "Some(\n        "@ + t + ",\n    )"@,
        None => "None"@,
    }
}

pub open spec fn state_word(state: FileState) -> Seq<char> {
    match state {
        FileState::Absent => "Absent"@,
        FileState::Directory => "Directory"@,
        FileState::File => "File"@,
        FileState::Hard => "Hard"@,
        FileState::Link => "Link"@,
        FileState::Touch => "Touch"@,
    }
}

impl File {
    /// The shell-style summary of the job; a state with no shell form is shown field by
    /// field.
    pub open spec fn spec_name(&self) -> Seq<char> {
        let f = force_flag(self.spec_force());
        match self.state {
            FileState::Absent => "rm -r"@ + f + " "@ + self.path@,
            FileState::Directory => "mkdir -p "@ + self.path@,
            FileState::Link => "ln -s"@ + f + " "@ + match self.src {
                Some(s) => s@,
                None => Seq::empty(),
            } + " "@ + self.path@,
            FileState::Touch => "touch "@ + self.path@,
            _ => "File {\n    force: "@ + pretty_option(
                match self.force {
                    Some(true) => Some("true"@),
                    Some(false) => Some("false"@),
                    None => None,
                },
            ) + ",\n    path: "@ + quoted(self.path@) + ",\n    src: "@ + pretty_option(
                match self.src {
                    Some(s) => Some(quoted(s@)),
                    None => None,
                },
            ) + ",\n    state: "@ + state_word(self.state) + ",\n}"@,
        }
    }

    pub fn name(&self) -> (r: String)
        ensures
            r@ == self.spec_name(),
    {
        let force = match self.force {
            Some(f) => f,
            None => false,
        };
        let mut r = String::new();
        match self.state {
            FileState::Absent => {
                r.append("rm -r");
                if force {
                    r.append("f");
                }
                r.append(" ");
                r.append(self.path.as_str());
            },
            FileState::Directory => {
                r.append("mkdir -p ");
                r.append(self.path.as_str());
            },
            FileState::Link => {
                r.append("ln -s");
                if force {
                    r.append("f");
                }
                r.append(" ");
                if let Some(s) = &self.src {
                    r.append(s.as_str());
                }
                r.append(" ");
                r.append(self.path.as_str());
            },
            FileState::Touch => {
                r.append("touch ");
                r.append(self.path.as_str());
            },
            _ => {
                r.append("File {\n    force: ");
                match self.force {
                    Some(b) => {
                        r.append("Some(\n        ");
                        r.append(if b { "true" } else { "false" });
                        r.append(",\n    )");
                    },
                    None => {
                        r.append("None");
                    },
                }
                r.append(",\n    path: ");
                let p = debug_quoted(self.path.as_str());
                r.append(p.as_str());
                r.append(",\n    src: ");
                match &self.src {
                    Some(s) => {
                        r.append("Some(\n        ");
                        let q = debug_quoted(s.as_str());
                        r.append(q.as_str());
                        r.append(",\n    )");
                    },
                    None => {
                        r.append("None");
                    },
                }
                r.append(",\n    state: ");
                r.append(if self.state == FileState::File { "File" } else { "Hard" });
                r.append(",\n}");
            },
        }
        r
    }
}

impl Default for File {
    fn default() -> (r: File)
        ensures
            r.force.is_none(),
            r.path@ == Seq::<char>::empty(),
            r.src.is_none(),
            r.state == FileState::Touch,
    {
        File { force: None, path: String::new(), src: None, state: FileState::Touch }
    }
}

impl FsAction {
    /// The error of a job whose action failed for `reason`.
    pub open spec fn spec_failure(self, reason: String) -> Error {
        match self {
            FsAction::RemoveDirAll(p) => Error::RemovePath { path: p, reason },
            FsAction::RemoveFile(p) => Error::RemovePath { path: p, reason },
            FsAction::CreateDirAll(p) => Error::CreatePath { path: p, reason },
            FsAction::Symlink { src, path } => Error::CreateLink { path, src, reason },
            FsAction::WriteEmpty(p) => Error::WritePath { path: p, reason },
        }
    }

    pub fn failure(&self, reason: String) -> (r: Error)
        ensures
            r == self.spec_failure(reason),
    {
        match self {
            FsAction::RemoveDirAll(p) => Error::RemovePath { path: p.clone(), reason },
            FsAction::RemoveFile(p) => Error::RemovePath { path: p.clone(), reason },
            FsAction::CreateDirAll(p) => Error::CreatePath { path: p.clone(), reason },
            FsAction::Symlink { src, path } => Error::CreateLink { path: path.clone(), src: src.clone(), reason },
            FsAction::WriteEmpty(p) => Error::WritePath { path: p.clone(), reason },
        }
    }
}

fn changed(before: String, after: String) -> (r: Status)
    ensures
        r@ == StatusView::Changed(before@, after@),
{
    Status::Changed(before, after)
}

fn plan_absent(p: &String, f: &PathFacts) -> (r: FilePlan)
    ensures
        (r.actions@, r.status@) == absent_plan(*p, *f),
{
    if !f.exists {
        return FilePlan { actions: Vec::new(), status: Status::NoChange(p.clone()) };
    }
    let mut actions = Vec::new();
    if f.is_dir {
        actions.push(FsAction::RemoveDirAll(p.clone()));
    } else {
        actions.push(FsAction::RemoveFile(p.clone()));
    }
    let status = changed(p.clone(), String::from_str("absent"));
    proof {
        assert(actions@ =~= absent_plan(*p, *f).0);
    }
    FilePlan { actions, status }
}

fn plan_directory(p: &String, f: &PathFacts, force: bool) -> (r: Result<FilePlan, Error>)
    ensures
        plan_view(r) == directory_plan(*p, *f, force),
{
    let mut to = String::from_str("directory: ");
    to.append(p.as_str());
    if f.is_dir {
        return Ok(FilePlan { actions: Vec::new(), status: Status::NoChange(to) });
    }
    let mut actions;
    let previously;
    if f.exists {
        if !force {
            return Err(Error::PathExists { path: p.clone() });
        }
        previously = String::from_str("not directory");
        actions = plan_absent(p, f).actions;
    } else {
        previously = String::from_str("absent");
        actions = Vec::new();
    }
    actions.push(FsAction::CreateDirAll(p.clone()));
    proof {
        assert(actions@ =~= directory_plan(*p, *f, force).unwrap().0);
    }
    Ok(FilePlan { actions, status: changed(previously, to) })
}

fn parent_directory(parent: &Option<ParentFacts>, force: bool) -> (r: Result<Vec<FsAction>, Error>)
    ensures
        match r {
            Ok(a) => parent_actions(*parent, force) == Ok::<Seq<FsAction>, Error>(a@),
            Err(e) => parent_actions(*parent, force) == Err::<Seq<FsAction>, Error>(e),
        },
{
    match parent {
        None => Ok(Vec::new()),
        Some(pp) => match plan_directory(&pp.path, &pp.facts, force) {
            Ok(plan) => Ok(plan.actions),
            Err(e) => Err(e),
        },
    }
}

fn plan_link(s: &String, d: &String, force: bool, obs: &Observation) -> (r: Result<FilePlan, Error>)
    ensures
        plan_view(r) == link_plan(*s, *d, force, *obs),
{
    if !obs.src.present && !force {
        return Err(Error::SrcNotFound { src: s.clone() });
    }
    let mut previously = String::from_str("absent");
    if let Some(t) = &obs.path.link_target {
        let mut before = t.clone();
        before.append(" -> ");
        before.append(d.as_str());
        // identical text is the same path; otherwise std compares the components
        if *s == *t || paths_equal(s.as_str(), t.as_str()) {
            return Ok(FilePlan { actions: Vec::new(), status: Status::NoChange(before) });
        }
        if !force {
            return Err(Error::PathExists { path: d.clone() });
        }
        previously = before;
    }
    let mut actions;
    if obs.path.present {
        if !obs.path.is_symlink {
            previously = String::from_str("existing: ");
            previously.append(d.as_str());
        }
        if !force {
            return Err(Error::PathExists { path: d.clone() });
        }
        actions = plan_absent(d, &obs.path).actions;
    } else {
        match parent_directory(&obs.parent, force) {
            Ok(a) => {
                actions = a;
            },
            Err(e) => {
                return Err(e);
            },
        }
    }
    actions.push(FsAction::Symlink { src: s.clone(), path: d.clone() });
    let mut linked = s.clone();
    linked.append(" -> ");
    linked.append(d.as_str());
    proof {
        assert(actions@ =~= link_plan(*s, *d, force, *obs).unwrap().0);
    }
    Ok(FilePlan { actions, status: changed(previously, linked) })
}

fn plan_touch(p: &String, obs: &Observation) -> (r: Result<FilePlan, Error>)
    ensures
        plan_view(r) == touch_plan(*p, *obs),
{
    if obs.path.exists {
        return Ok(FilePlan { actions: Vec::new(), status: Status::NoChange(p.clone()) });
    }
    let mut actions = match parent_directory(&obs.parent, false) {
        Ok(a) => a,
        Err(e) => {
            return Err(e);
        },
    };
    actions.push(FsAction::WriteEmpty(p.clone()));
    proof {
        assert(actions@ =~= touch_plan(*p, *obs).unwrap().0);
    }
    Ok(FilePlan { actions, status: changed(String::from_str("absent"), p.clone()) })
}

} // verus!
