//! The flags and paths that one documentation run is configured with.

use vstd::prelude::*;

verus! {

/// Flags and options passed to a documentation run. The command line is
/// read outside the library; the parsed values arrive here as plain data.
#[derive(Debug)]
pub struct Options {
    pub clean: bool,
    pub lint: bool,
    pub include_def: bool,
    pub multi_thread: bool,
    pub verbose: bool,
    pub book: bool,
    pub dest: String,
    pub dir: String,
    pub ignore: String,
}

impl Options {
    /// Copies the options field for field.
    pub fn clone(&self) -> (r: Options)
        ensures
            r.clean == self.clean,
            r.lint == self.lint,
            r.include_def == self.include_def,
            r.multi_thread == self.multi_thread,
            r.verbose == self.verbose,
            r.book == self.book,
            r.dest@ == self.dest@,
            r.dir@ == self.dir@,
            r.ignore@ == self.ignore@,
    {
        Options {
            clean: self.clean,
            lint: self.lint,
            include_def: self.include_def,
            multi_thread: self.multi_thread,
            verbose: self.verbose,
            book: self.book,
            dest: self.dest.clone(),
            dir: self.dir.clone(),
            ignore: self.ignore.clone(),
        }
    }
}

} // verus!
