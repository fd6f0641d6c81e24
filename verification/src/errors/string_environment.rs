use super::error_handling::{extended_path, Environment};
use vstd::prelude::*;

verus! {

impl Environment for String {
    open spec fn path(&self) -> Seq<char> {
        self@
    }

    fn extend_path(&mut self, sub_environment: &str) {
        self.append("\n\t-> ");
        self.append(sub_environment);
        assert(self.path() == extended_path(old(self).path(), sub_environment@));
    }
}

} // verus!
