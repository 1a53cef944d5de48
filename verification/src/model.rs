//! The records of one fetch cycle: the summary that the list endpoint gives
//! for each runner, the detailed record fetched per runner, and the projects
//! a runner is attached to.
//!
//! Each record has a view in which every string is a sequence of characters,
//! so that contracts can speak of what a record says.

use vstd::prelude::*;

verus! {

/// The view of an optional string.
pub open spec fn opt_text(s: Option<String>) -> Option<Seq<char>> {
    match s {
        Some(t) => Some(t@),
        None => None,
    }
}

/// The views of a sequence of strings, in order.
pub open spec fn texts(s: Seq<String>) -> Seq<Seq<char>> {
    s.map_values(|t: String| t@)
}

/// A project that a runner serves. Each record is owned by the runner detail
/// that embeds it.
#[derive(Clone, Debug, PartialEq, Eq)]
pub struct Project {
    pub id: i64,
    pub name: String,
    pub name_with_namespace: String,
    pub path: String,
    pub path_with_namespace: String,
}

/// What a project says.
pub struct ProjectView {
    pub id: int,
    pub name: Seq<char>,
    pub name_with_namespace: Seq<char>,
    pub path: Seq<char>,
    pub path_with_namespace: Seq<char>,
}

impl View for Project {
    type V = ProjectView;

    open spec fn view(&self) -> ProjectView {
        ProjectView {
            id: self.id as int,
            name: self.name@,
            name_with_namespace: self.name_with_namespace@,
            path: self.path@,
            path_with_namespace: self.path_with_namespace@,
        }
    }
}

/// The list-view record of a runner. It serves only to discover the ids to
/// expand into details.
#[derive(Clone, Debug, PartialEq, Eq)]
pub struct Runner {
    pub id: usize,
    pub description: String,
    pub ip_address: String,
    pub active: bool,
    pub is_shared: bool,
    pub name: Option<String>,
    pub online: bool,
    pub status: String,
}

/// What a runner summary says.
pub struct RunnerView {
    pub id: nat,
    pub description: Seq<char>,
    pub ip_address: Seq<char>,
    pub active: bool,
    pub is_shared: bool,
    pub name: Option<Seq<char>>,
    pub online: bool,
    pub status: Seq<char>,
}

impl View for Runner {
    type V = RunnerView;

    open spec fn view(&self) -> RunnerView {
        RunnerView {
            id: self.id as nat,
            description: self.description@,
            ip_address: self.ip_address@,
            active: self.active,
            is_shared: self.is_shared,
            name: opt_text(self.name),
            online: self.online,
            status: self.status@,
        }
    }
}

/// The fully expanded record of a runner: the record the application holds
/// for the lifetime of one fetch cycle.
#[derive(Clone, Debug, PartialEq, Eq)]
pub struct RunnerDetails {
    pub id: usize,
    pub description: String,
    pub ip_address: String,
    pub active: bool,
    pub is_shared: bool,
    pub name: Option<String>,
    pub online: bool,
    pub status: String,
    pub architecture: Option<String>,
    pub runner_type: Option<String>,
    pub contacted_at: String,
    pub platform: Option<String>,
    pub projects: Vec<Project>,
    pub revision: Option<String>,
    pub tag_list: Vec<String>,
    pub version: Option<String>,
    pub access_level: String,
    pub maximum_timeout: Option<i64>,
}

/// What a runner detail says.
pub struct RunnerDetailsView {
    pub id: nat,
    pub description: Seq<char>,
    pub ip_address: Seq<char>,
    pub active: bool,
    pub is_shared: bool,
    pub name: Option<Seq<char>>,
    pub online: bool,
    pub status: Seq<char>,
    pub architecture: Option<Seq<char>>,
    pub runner_type: Option<Seq<char>>,
    pub contacted_at: Seq<char>,
    pub platform: Option<Seq<char>>,
    pub projects: Seq<ProjectView>,
    pub revision: Option<Seq<char>>,
    pub tag_list: Seq<Seq<char>>,
    pub version: Option<Seq<char>>,
    pub access_level: Seq<char>,
    pub maximum_timeout: Option<int>,
}

impl View for RunnerDetails {
    type V = RunnerDetailsView;

    open spec fn view(&self) -> RunnerDetailsView {
        RunnerDetailsView {
            id: self.id as nat,
            description: self.description@,
            ip_address: self.ip_address@,
            active: self.active,
            is_shared: self.is_shared,
            name: opt_text(self.name),
            online: self.online,
            status: self.status@,
            architecture: opt_text(self.architecture),
            runner_type: opt_text(self.runner_type),
            contacted_at: self.contacted_at@,
            platform: opt_text(self.platform),
            projects: self.projects@.map_values(|p: Project| p@),
            revision: opt_text(self.revision),
            tag_list: texts(self.tag_list@),
            version: opt_text(self.version),
            access_level: self.access_level@,
            maximum_timeout: match self.maximum_timeout {
                Some(t) => Some(t as int),
                None => None,
            },
        }
    }
}

/// The views of a sequence of runner details, in order.
pub open spec fn detail_views(runners: Seq<RunnerDetails>) -> Seq<RunnerDetailsView> {
    runners.map_values(|r: RunnerDetails| r@)
}

} // verus!
