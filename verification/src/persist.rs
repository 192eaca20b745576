//! Saving the registry without ever showing a reader half of it: the text is staged under a
//! sibling name first, and only a complete one takes the place of the registry's file.
use vstd::prelude::*;

use crate::node::{NodeError, NodeFault};

verus! {

/// What is to be done next in saving the registry.
#[derive(Debug)]
pub enum SaveStep {
    /// Write this text under the sibling name.
    Stage(String),
    /// Rename the sibling to the registry's file.
    Publish,
    /// Nothing more; this is how it went.
    Finished(Result<(), NodeError>),
}

/// The mathematical form of a [`SaveStep`].
pub enum Save {
    Stage(Seq<char>),
    Publish,
    Finished(Result<(), NodeFault>),
}

/// How a save went.
pub open spec fn verdict(r: Result<(), NodeError>) -> Result<(), NodeFault> {
    match r {
        Ok(_) => Ok(()),
        Err(e) => Err(e@),
    }
}

impl View for SaveStep {
    type V = Save;

    open spec fn view(&self) -> Save {
        match *self {
            SaveStep::Stage(body) => Save::Stage(body@),
            SaveStep::Publish => Save::Publish,
            SaveStep::Finished(r) => Save::Finished(verdict(r)),
        }
    }
}

/// The characters of a rendered registry, or of why it could not be rendered.
pub open spec fn rendered_text(rendered: Result<String, String>) -> Result<Seq<char>, Seq<char>> {
    match rendered {
        Ok(body) => Ok(body@),
        Err(e) => Err(e@),
    }
}

/// How an action on the disk went.
pub open spec fn done_text(done: Result<(), String>) -> Result<(), Seq<char>> {
    match done {
        Ok(_) => Ok(()),
        Err(e) => Err(e@),
    }
}

/// The first step: none where there is no file to save to or nothing could be rendered.
pub open spec fn first_step(has_file: bool, rendered: Result<Seq<char>, Seq<char>>) -> Save {
    if !has_file {
        Save::Finished(Ok(()))
    } else {
        match rendered {
            Ok(body) => Save::Stage(body),
            Err(e) => Save::Finished(Err(NodeFault::Parse(e))),
        }
    }
}

impl Save {
    /// The step after this one, whose action went as `done` says.
    pub open spec fn after(self, done: Result<(), Seq<char>>) -> Save {
        match self {
            Save::Finished(r) => Save::Finished(r),
            Save::Stage(_) => match done {
                Ok(_) => Save::Publish,
                Err(e) => Save::Finished(Err(NodeFault::Http(e))),
            },
            Save::Publish => match done {
                Ok(_) => Save::Finished(Ok(())),
                Err(e) => Save::Finished(Err(NodeFault::Http(e))),
            },
        }
    }
}

impl SaveStep {
    /// The first step of saving a registry that was rendered as `rendered` says.
    pub fn first(has_file: bool, rendered: Result<String, String>) -> (r: SaveStep)
        ensures
            r@ == first_step(has_file, rendered_text(rendered)),
    {
        if !has_file {
            return SaveStep::Finished(Ok(()));
        }
        match rendered {
            Ok(body) => SaveStep::Stage(body),
            Err(e) => SaveStep::Finished(Err(NodeError::Parse(e))),
        }
    }

    /// The step after this one, whose action went as `done` says.
    pub fn next(self, done: Result<(), String>) -> (r: SaveStep)
        ensures
            r@ == self@.after(done_text(done)),
    {
        match self {
            SaveStep::Finished(r) => SaveStep::Finished(r),
            SaveStep::Stage(_) => match done {
                Ok(_) => SaveStep::Publish,
                Err(e) => SaveStep::Finished(Err(NodeError::Http(e))),
            },
            SaveStep::Publish => match done {
                Ok(_) => SaveStep::Finished(Ok(())),
                Err(e) => SaveStep::Finished(Err(NodeError::Http(e))),
            },
        }
    }
}

/// What stands on the disk: under the sibling name, and in the registry's file.
pub struct Disk {
    pub staged: Option<Seq<char>>,
    pub target: Option<Seq<char>>,
}

impl Save {
    /// What the step leaves on the disk where its action went as `done` says. A write that fails
    /// may leave anything under its name; a rename that fails leaves both names alone.
    pub open spec fn effect(
        self,
        disk: Disk,
        done: Result<(), Seq<char>>,
        leftover: Option<Seq<char>>,
    ) -> Disk {
        match self {
            Save::Stage(body) => Disk {
                staged: if done is Ok {
                    Some(body)
                } else {
                    leftover
                },
                target: disk.target,
            },
            Save::Publish => if done is Ok {
                Disk { staged: None, target: disk.staged }
            } else {
                disk
            },
            Save::Finished(_) => disk,
        }
    }
}

} // verus!
