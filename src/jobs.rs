use vstd::prelude::*;

use crate::command::{self, Command};
use crate::file::{self, File};
use crate::runner::JobInfo;
use crate::text::{copy_string, copy_strings};

verus! {

/// Where a job stands in a run.
#[derive(Clone, Debug, PartialEq, Eq)]
pub enum Status {
    /// Some prerequisite is not yet done.
    Blocked,
    /// Success, with the state observed before and the state after.
    Changed(String, String),
    /// Success, with nothing more to tell.
    Done,
    /// Taken by a worker and not yet finished.
    InProgress,
    /// Success, with nothing to change.
    NoChange(String),
    /// Ready to be taken.
    Pending,
    /// Its guard was false: it never runs.
    Skipped,
}

/// Why a job failed.
#[derive(Clone, Debug, PartialEq, Eq)]
pub enum Error {
    CommandJob(command::Error),
    FileJob(file::Error),
}

/// What a job's slot in the status map holds: a status, or the error it ended with.
pub type JobResult = Result<Status, Error>;

/// The model of a [`Status`], its texts as character sequences.
pub enum StatusView {
    Blocked,
    Changed(Seq<char>, Seq<char>),
    Done,
    InProgress,
    NoChange(Seq<char>),
    Pending,
    Skipped,
}

impl View for Status {
    type V = StatusView;

    open spec fn view(&self) -> StatusView {
        match self {
            Status::Blocked => StatusView::Blocked,
            Status::Changed(a, b) => StatusView::Changed(a@, b@),
            Status::Done => StatusView::Done,
            Status::InProgress => StatusView::InProgress,
            Status::NoChange(a) => StatusView::NoChange(a@),
            Status::Pending => StatusView::Pending,
            Status::Skipped => StatusView::Skipped,
        }
    }
}

impl Status {
    /// The statuses of a job that ran and succeeded.
    pub open spec fn spec_is_done(&self) -> bool {
        match self {
            Status::Changed(_, _) | Status::Done | Status::NoChange(_) => true,
            _ => false,
        }
    }

    /// The statuses from which nothing moves a job any more: done, blocked or skipped.
    pub open spec fn spec_is_settled(&self) -> bool {
        self.spec_is_done() || self is Blocked || self is Skipped
    }

    #[verifier::when_used_as_spec(spec_is_done)]
    pub fn is_done(&self) -> (r: bool)
        ensures
            r == self.spec_is_done(),
    {
        match self {
            Status::Changed(_, _) | Status::Done | Status::NoChange(_) => true,
            _ => false,
        }
    }

    #[verifier::when_used_as_spec(spec_is_settled)]
    pub fn is_settled(&self) -> (r: bool)
        ensures
            r == self.spec_is_settled(),
    {
        match self {
            Status::Blocked | Status::Skipped => true,
            _ => self.is_done(),
        }
    }
}

/// A slot is done when it holds a done status; an error is never done.
pub open spec fn result_done(r: JobResult) -> bool {
    match r {
        Ok(s) => s.spec_is_done(),
        Err(_) => false,
    }
}

/// A slot is settled when it holds a settled status or an error.
pub open spec fn result_settled(r: JobResult) -> bool {
    match r {
        Ok(s) => s.spec_is_settled(),
        Err(_) => true,
    }
}

pub fn is_result_done(result: &JobResult) -> (r: bool)
    ensures
        r == result_done(*result),
{
    match result {
        Ok(s) => s.is_done(),
        Err(_) => false,
    }
}

pub fn is_result_settled(result: &JobResult) -> (r: bool)
    ensures
        r == result_settled(*result),
{
    match result {
        Ok(s) => s.is_settled(),
        Err(_) => true,
    }
}


/// What every job may declare, whatever it does.
#[derive(Debug)]
pub struct Metadata {
    pub name: Option<String>,
    pub needs: Option<Vec<String>>,
    pub when: Option<bool>,
}

/// What a job does.
#[derive(Debug)]
pub enum Spec {
    Command(Command),
    File(File),
}

/// A job: what it declares, and what it does.
#[derive(Debug)]
pub struct Job {
    pub metadata: Metadata,
    pub spec: Spec,
}

impl Default for Metadata {
    fn default() -> (r: Metadata)
        ensures
            r.name.is_none(),
            r.needs.is_none(),
            r.when.is_none(),
    {
        Metadata { name: None, needs: None, when: None }
    }
}

impl Job {
    /// The declared name, else the summary of what the job does.
    pub open spec fn spec_name(&self) -> Seq<char> {
        match self.metadata.name {
            Some(n) => n@,
            None => match self.spec {
                Spec::Command(c) => c.spec_name(),
                Spec::File(f) => f.spec_name(),
            },
        }
    }

    /// The declared needs, else none.
    pub open spec fn spec_needs(&self) -> Seq<String> {
        match self.metadata.needs {
            Some(v) => v@,
            None => Seq::empty(),
        }
    }

    /// The declared guard, else true.
    pub open spec fn spec_when(&self) -> bool {
        self.metadata.when != Some(false)
    }

    pub fn name(&self) -> (r: String)
        ensures
            r@ == self.spec_name(),
    {
        match &self.metadata.name {
            Some(n) => copy_string(n),
            None => match &self.spec {
                Spec::Command(c) => c.name(),
                Spec::File(f) => f.name(),
            },
        }
    }

    pub fn needs(&self) -> (r: Vec<String>)
        ensures
            r@ == self.spec_needs(),
    {
        match &self.metadata.needs {
            Some(v) => copy_strings(v),
            None => Vec::new(),
        }
    }

    pub fn when(&self) -> (r: bool)
        ensures
            r == self.spec_when(),
    {
        match self.metadata.when {
            Some(w) => w,
            None => true,
        }
    }

    /// What the scheduler needs to know of the job.
    pub fn info(&self) -> (r: JobInfo)
        ensures
            r.name@ == self.spec_name(),
            r.needs@ == self.spec_needs(),
            r.when == self.spec_when(),
    {
        JobInfo { name: self.name(), needs: self.needs(), when: self.when() }
    }
}

} // verus!
