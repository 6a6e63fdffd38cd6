//! The inputs the application reacts to: keys pressed and results of the
//! Backlog API requests.

use vstd::prelude::*;
use crate::models::{Comment, Issue, IssueStatus, Project, User};

verus! {

/// A key press, reduced to what the application distinguishes.
#[derive(Clone, Copy, PartialEq, Eq, Structural, Debug)]
pub enum Key {
    /// A printable character.
    Char(char),
    Enter,
    Esc,
    Backspace,
    Up,
    Down,
    /// Any other key; every screen ignores it.
    Other,
}

/// An event delivered to the application state.
pub enum AppEvent {
    /// Keyboard input.
    Key(Key),
    /// Issue list fetched for a space.
    IssuesLoaded { space: String, issues: Vec<Issue> },
    /// Single issue detail fetched.
    IssueDetailLoaded(Issue),
    /// Comments of an issue fetched.
    CommentsLoaded { issue_key: String, comments: Vec<Comment> },
    /// All users of a space fetched, each user once.
    SpaceUsersLoaded { space: String, users: Vec<User> },
    /// Projects of a space fetched.
    ProjectsLoaded { space: String, projects: Vec<Project> },
    /// A request for a space failed.
    ApiError { space: String, message: String },
    /// Statuses of the selected project fetched.
    StatusesLoaded { space: String, statuses: Vec<IssueStatus> },
}

} // verus!
