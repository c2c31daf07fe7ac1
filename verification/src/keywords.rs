//! The reserved key names of a pipeline document.

use vstd::prelude::*;

verus! {

/// The key names that give a document node its role: the key that labels a
/// node, the keys that hold the members of a series and of a parallel group,
/// and the key that marks a task.
#[derive(Clone, Copy, Debug)]
pub struct Keywords<'a> {
    pub name: &'a str,
    pub series: &'a str,
    pub parallel: &'a str,
    pub task: &'a str,
}

/// The model of `Keywords`: each key name as its characters.
pub struct KeywordsView {
    pub name: Seq<char>,
    pub series: Seq<char>,
    pub parallel: Seq<char>,
    pub task: Seq<char>,
}

impl<'a> View for Keywords<'a> {
    type V = KeywordsView;

    open spec fn view(&self) -> KeywordsView {
        KeywordsView {
            name: self.name@,
            series: self.series@,
            parallel: self.parallel@,
            task: self.task@,
        }
    }
}

} // verus!
