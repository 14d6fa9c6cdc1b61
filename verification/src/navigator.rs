//! The navigation core: a stack of visited locations, the current listing,
//! and the last unresolved error.
//!
//! The caller (a UI layer or any other driver) owns the filesystem: after
//! every navigation action it reads the directory named by [`Files::current`]
//! and hands the outcome to [`Files::reload_path_list`], which either installs
//! the fresh listing or records the failure and rolls the stack back one
//! level.

use vstd::prelude::*;

verus! {

/// The full state of one browsing session.
///
/// `path_stack` is the path from the session's root to the current location;
/// its last element is the current location, and it is never empty once
/// constructed. `path_names` is the listing of the last location that was
/// read successfully: the full paths of its immediate children, in the order
/// the filesystem enumerated them. `err` describes the most recent failed
/// listing attempt, or is `None` when no unresolved error exists.
pub struct Files {
    pub path_stack: Vec<String>,
    pub path_names: Vec<String>,
    pub err: Option<String>,
}

impl Files {
    /// The state is well formed when the stack holds at least one location:
    /// there is always a current location to read or to display.
    pub open spec fn wf(&self) -> bool {
        self.path_stack@.len() >= 1
    }

    /// Starts a session at `initial_dir`, the absolute path of the caller's
    /// working directory. The listing starts empty and without an error; the
    /// caller follows up by reading `initial_dir` and handing the outcome to
    /// `reload_path_list`, exactly as after any navigation action.
    pub fn new(initial_dir: String) -> (files: Files)
        ensures
            files.wf(),
            files.path_stack@ =~= seq![initial_dir],
            files.path_names@ =~= Seq::<String>::empty(),
            files.err is None,
    {
        let mut path_stack: Vec<String> = Vec::new();
        path_stack.push(initial_dir);
        Files { path_stack, path_names: Vec::new(), err: None }
    }

    /// Installs the outcome of reading the directory at the top of the stack.
    ///
    /// On success the fresh listing replaces the old one, the error is
    /// cleared, and the stack is untouched. On failure the message is
    /// recorded, the stale listing is kept on display unchanged, and the
    /// stack is rolled back one level to the last known-good location —
    /// unless only the root is left, which cannot be rolled back and stays
    /// current.
    pub fn reload_path_list(&mut self, listing: Result<Vec<String>, String>)
        requires
            old(self).wf(),
        ensures
            final(self).wf(),
            listing matches Ok(entries) ==> {
                &&& final(self).path_stack == old(self).path_stack
                &&& final(self).path_names == entries
                &&& final(self).err is None
            },
            listing matches Err(message) ==> {
                &&& final(self).path_names == old(self).path_names
                &&& final(self).err == Some(message)
                &&& old(self).path_stack@.len() > 1 ==> final(self).path_stack@
                    == old(self).path_stack@.drop_last()
                &&& old(self).path_stack@.len() == 1 ==> final(self).path_stack
                    == old(self).path_stack
            },
    {
        match listing {
            Ok(entries) => {
                self.clear_err();
                self.path_names = entries;
            }
            Err(message) => {
                self.err = Some(message);
                if self.path_stack.len() > 1 {
                    self.path_stack.pop();
                }
            }
        }
    }

    /// Pops the current location, returning to its parent — unless the stack
    /// holds only the root, in which case the stack is untouched. Either way
    /// the caller follows up with a fresh read of `current` handed to
    /// `reload_path_list`, so even the no-op refreshes the listing.
    pub fn go_up(&mut self)
        requires
            old(self).wf(),
        ensures
            final(self).wf(),
            final(self).path_names == old(self).path_names,
            final(self).err == old(self).err,
            old(self).path_stack@.len() > 1 ==> final(self).path_stack@
                == old(self).path_stack@.drop_last(),
            old(self).path_stack@.len() == 1 ==> final(self).path_stack
                == old(self).path_stack,
    {
        if self.path_stack.len() > 1 {
            self.path_stack.pop();
        }
    }

    /// Pushes the listed entry at `dir_id` as the new current location. The
    /// index must come from the current listing; whether the entry really is
    /// a directory is found out by the reload that follows, whose failure
    /// path rolls this push back.
    pub fn enter_dir(&mut self, dir_id: usize)
        requires
            old(self).wf(),
            dir_id < old(self).path_names@.len(),
        ensures
            final(self).wf(),
            final(self).path_names == old(self).path_names,
            final(self).err == old(self).err,
            final(self).path_stack@
                == old(self).path_stack@.push(old(self).path_names@[dir_id as int]),
    {
        let path = self.path_names[dir_id].clone();
        self.path_stack.push(path);
    }

    /// The current location: the top of the stack.
    pub fn current(&self) -> (r: &String)
        requires
            self.wf(),
        ensures
            r == self.path_stack@.last(),
    {
        &self.path_stack[self.path_stack.len() - 1]
    }

    /// Forgets the recorded error. The stack and the listing are untouched:
    /// the stale listing stays on display until the next navigation action.
    pub fn clear_err(&mut self)
        ensures
            final(self).path_stack == old(self).path_stack,
            final(self).path_names == old(self).path_names,
            final(self).err is None,
    {
        self.err = None;
    }
}

} // verus!
