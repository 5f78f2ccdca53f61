use vstd::prelude::*;
use crate::chars::{chars_of, string_from_chars};
use crate::messages::Id;

verus! {

/// The name of the marker file of a project directory.
pub open spec fn project_file_name() -> Seq<char> {
    seq!['.', 'a', 'p', 'a', 's']
}

/// The path of the marker file inside directory `dir`: joined with a `/`
/// unless `dir` is empty or already ends in one.
pub open spec fn project_file_in(dir: Seq<char>) -> Seq<char> {
    if dir.len() == 0 || dir.last() == '/' {
        dir + project_file_name()
    } else {
        dir.push('/') + project_file_name()
    }
}

/// The path of the project marker file of directory `dir`.
pub fn get_apas_path(dir: &str) -> (r: String)
    ensures
        r@ == project_file_in(dir@),
{
    let mut cs = chars_of(dir);
    let n = cs.len();
    if n > 0 && cs[n - 1] != '/' {
        cs.push('/');
    }
    cs.push('.');
    cs.push('a');
    cs.push('p');
    cs.push('a');
    cs.push('s');
    let ghost d = dir@;
    assert(cs@ =~= project_file_in(d));
    string_from_chars(&cs)
}


/// What a project directory remembers between runs: its session id and the
/// agent conversation of each pane.
#[derive(Debug, Clone, PartialEq)]
pub struct ProjectMetadata {
    /// The relay session id of this project.
    pub id: Id,
    pub name: Option<String>,
    /// When the project was first initialised.
    pub created_at: String,
    /// The prompt of the unattended loop, when not the default one.
    pub prompt: Option<String>,
    /// The agent conversation of the unattended loop.
    pub deadloop_claude_session_id: Option<Id>,
    /// The agent conversation of the interactive loop.
    pub interactive_claude_session_id: Option<Id>,
}

impl ProjectMetadata {
    /// A fresh project with id `id`, created at `created_at`.
    pub fn new(id: Id, created_at: String) -> (r: ProjectMetadata)
        ensures
            r == (ProjectMetadata {
                id,
                name: None,
                created_at,
                prompt: None,
                deadloop_claude_session_id: None,
                interactive_claude_session_id: None,
            }),
    {
        ProjectMetadata {
            id,
            name: None,
            created_at,
            prompt: None,
            deadloop_claude_session_id: None,
            interactive_claude_session_id: None,
        }
    }

    /// A fresh project named `name`.
    pub fn with_name(name: String, id: Id, created_at: String) -> (r: ProjectMetadata)
        ensures
            r == (ProjectMetadata {
                id,
                name: Some(name),
                created_at,
                prompt: None,
                deadloop_claude_session_id: None,
                interactive_claude_session_id: None,
            }),
    {
        ProjectMetadata {
            id,
            name: Some(name),
            created_at,
            prompt: None,
            deadloop_claude_session_id: None,
            interactive_claude_session_id: None,
        }
    }

    /// The conversation of the unattended loop; `fresh` becomes it when
    /// there is none yet.
    pub fn get_or_create_deadloop_session_id(&mut self, fresh: Id) -> (r: Id)
        ensures
            r == match old(self).deadloop_claude_session_id {
                Some(c) => c,
                None => fresh,
            },
            *final(self) == (ProjectMetadata { deadloop_claude_session_id: Some(r), ..*old(self) }),
    {
        match self.deadloop_claude_session_id {
            Some(c) => c,
            None => {
                self.deadloop_claude_session_id = Some(fresh);
                fresh
            },
        }
    }

    /// The conversation of the interactive loop; `fresh` becomes it when
    /// there is none yet.
    pub fn get_or_create_interactive_session_id(&mut self, fresh: Id) -> (r: Id)
        ensures
            r == match old(self).interactive_claude_session_id {
                Some(c) => c,
                None => fresh,
            },
            *final(self) == (ProjectMetadata { interactive_claude_session_id: Some(r), ..*old(self) }),
    {
        match self.interactive_claude_session_id {
            Some(c) => c,
            None => {
                self.interactive_claude_session_id = Some(fresh);
                fresh
            },
        }
    }
}

} // verus!
