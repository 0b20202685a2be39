//! Running a command with a package tree on the search path.

use vstd::prelude::*;

verus! {

/// A command to run, and what to pass to it.
#[derive(Clone, Debug, PartialEq, Eq)]
pub struct Exec {
    /// The command to run.
    pub command: String,
    /// Arguments to pass to the program.
    pub args: Option<Vec<String>>,
}

/// The package tree whose programs are put on the search path.
#[derive(Clone, Copy, Debug, PartialEq, Eq, Structural)]
pub enum TreeChoice {
    /// The tree of the project in which the command is run.
    Project,
    /// The user's tree for the configured Lua version.
    User,
}

/// What has to happen before the command can be run.
#[derive(Clone, Copy, Debug, PartialEq, Eq, Structural)]
pub enum Preparation {
    /// The command is on the search path already.
    Nothing,
    /// The command is missing inside a project: build the project, which
    /// may provide it.
    BuildProject,
    /// The command is missing outside any project: install the package that
    /// provides it.
    InstallCommand,
}

impl Exec {
    /// The tree to use: the project's inside a project, the user's
    /// elsewhere.
    pub open spec fn spec_tree(in_project: bool) -> TreeChoice {
        if in_project {
            TreeChoice::Project
        } else {
            TreeChoice::User
        }
    }

    /// The tree to use.
    #[verifier::when_used_as_spec(spec_tree)]
    pub fn tree(in_project: bool) -> (choice: TreeChoice)
        ensures
            choice == Self::spec_tree(in_project),
    {
        if in_project {
            TreeChoice::Project
        } else {
            TreeChoice::User
        }
    }

    /// What to do first, given whether the command was found on the search
    /// path once the tree was added to it.
    pub open spec fn spec_preparation(in_project: bool, command_found: bool) -> Preparation {
        if command_found {
            Preparation::Nothing
        } else if in_project {
            Preparation::BuildProject
        } else {
            Preparation::InstallCommand
        }
    }

    /// What to do before the command is run.
    #[verifier::when_used_as_spec(spec_preparation)]
    pub fn preparation(in_project: bool, command_found: bool) -> (first: Preparation)
        ensures
            first == Self::spec_preparation(in_project, command_found),
    {
        if command_found {
            Preparation::Nothing
        } else if in_project {
            Preparation::BuildProject
        } else {
            Preparation::InstallCommand
        }
    }

    /// The arguments to pass on: those given, or none.
    pub fn arguments(self) -> (args: Vec<String>)
        ensures
            match self.args {
                Some(given) => args == given,
                None => args@.len() == 0,
            },
    {
        match self.args {
            Some(given) => given,
            None => Vec::new(),
        }
    }
}

} // verus!
