//! `Info`: a path found by a walk, with its size.
use vstd::prelude::*;

use crate::node::Node;
use crate::path::Path;
use crate::size::Size;

verus! {

/// A path found by a walk, with its size.
#[derive(Debug)]
pub struct Info {
    pub path: Path,
    pub size: Size,
}

impl Info {
    /// The information of `path`, whose metadata the caller read into `node`.
    pub fn of(path: &Path, node: &Node) -> (r: Info)
        ensures
            r.path@ == path@,
            r.size@ == node.size,
    {
        Info { path: path.clone(), size: path.size(node) }
    }

    /// The path.
    pub fn path(&self) -> (r: Path)
        ensures
            r@ == self.path@,
    {
        self.path.clone()
    }

    /// The size.
    pub fn size(&self) -> (r: Size)
        ensures
            r@ == self.size@,
    {
        self.size
    }

    /// Adds `size` to the size, and returns the new size.
    pub fn increment_size(&mut self, size: Size) -> (r: Size)
        requires
            old(self).size@ + size@ <= u64::MAX,
        ensures
            final(self).path == old(self).path,
            final(self).size@ == old(self).size@ + size@,
            r@ == final(self).size@,
    {
        self.size.add_assign(size);
        self.size
    }

    /// A copy of this information.
    pub fn duplicate(&self) -> (r: Info)
        ensures
            r.path@ == self.path@,
            r.size@ == self.size@,
    {
        Info { path: self.path.clone(), size: self.size }
    }

    /// How this information is shown: its path.
    pub fn to_string(&self) -> (r: String)
        ensures
            r@ == self.path@,
    {
        self.path.to_string()
    }
}

} // verus!
