//! Records returned by the Backlog API: users, projects, statuses,
//! priorities, issue types, comments and issues.
//!
//! Each record is cloned by hand so that a copy is known to equal the
//! value it was made from, which the state machine relies on when it copies a selected
//! project or issue.

use vstd::prelude::*;

verus! {

/// A Backlog user.
#[derive(Debug)]
pub struct User {
    pub id: i64,
    pub name: String,
}

/// A Backlog project.
#[derive(Debug)]
pub struct Project {
    pub id: i64,
    pub project_key: String,
    pub name: String,
}

/// The status of an issue.
#[derive(Debug)]
pub struct IssueStatus {
    pub id: i64,
    pub name: String,
}

/// The priority of an issue.
#[derive(Debug)]
pub struct Priority {
    pub id: i64,
    pub name: String,
}

/// The type of an issue.
#[derive(Debug)]
pub struct IssueType {
    pub id: i64,
    pub name: String,
}

/// A comment posted on an issue.
#[derive(Debug)]
pub struct Comment {
    pub id: i64,
    pub content: Option<String>,
    pub created_user: Option<User>,
    pub created: String,
}

/// A Backlog issue.
#[derive(Debug)]
pub struct Issue {
    pub id: i64,
    pub issue_key: String,
    pub summary: String,
    pub description: Option<String>,
    pub assignee: Option<User>,
    pub status: IssueStatus,
    pub priority: Option<Priority>,
    pub issue_type: Option<IssueType>,
    pub due_date: Option<String>,
}

impl Clone for User {
    fn clone(&self) -> (res: Self)
        ensures
            res == *self,
    {
        User { id: self.id, name: self.name.clone() }
    }
}

impl Clone for Project {
    fn clone(&self) -> (res: Self)
        ensures
            res == *self,
    {
        Project { id: self.id, project_key: self.project_key.clone(), name: self.name.clone() }
    }
}

impl Clone for IssueStatus {
    fn clone(&self) -> (res: Self)
        ensures
            res == *self,
    {
        IssueStatus { id: self.id, name: self.name.clone() }
    }
}

impl Clone for Priority {
    fn clone(&self) -> (res: Self)
        ensures
            res == *self,
    {
        Priority { id: self.id, name: self.name.clone() }
    }
}

impl Clone for IssueType {
    fn clone(&self) -> (res: Self)
        ensures
            res == *self,
    {
        IssueType { id: self.id, name: self.name.clone() }
    }
}

impl Clone for Comment {
    fn clone(&self) -> (res: Self)
        ensures
            res == *self,
    {
        let created_user = match &self.created_user {
            Some(u) => Some(u.clone()),
            None => None,
        };
        Comment {
            id: self.id,
            content: clone_opt_string(&self.content),
            created_user,
            created: self.created.clone(),
        }
    }
}

impl Clone for Issue {
    fn clone(&self) -> (res: Self)
        ensures
            res == *self,
    {
        let assignee = match &self.assignee {
            Some(u) => Some(u.clone()),
            None => None,
        };
        let priority = match &self.priority {
            Some(p) => Some(p.clone()),
            None => None,
        };
        let issue_type = match &self.issue_type {
            Some(t) => Some(t.clone()),
            None => None,
        };
        Issue {
            id: self.id,
            issue_key: self.issue_key.clone(),
            summary: self.summary.clone(),
            description: clone_opt_string(&self.description),
            assignee,
            status: self.status.clone(),
            priority,
            issue_type,
            due_date: clone_opt_string(&self.due_date),
        }
    }
}

/// Clones an optional string; the copy equals the value it was made from.
pub fn clone_opt_string(s: &Option<String>) -> (res: Option<String>)
    ensures
        res == *s,
{
    match s {
        Some(v) => Some(v.clone()),
        None => None,
    }
}

} // verus!
