//! The two minimal modules that ship beside the development module.
use vstd::prelude::*;

verus! {

/// The Blob module: a module that only carries a greeting.
pub struct BlobModule {
    hi: String,
}

/// The String module: a module that only carries a greeting.
pub struct StringModule {
    hi: String,
}

impl BlobModule {
    /// The module's greeting.
    pub closed spec fn greeting(self) -> Seq<char> {
        self.hi@
    }

    /// A Blob module with greeting `hi`.
    pub fn new(hi: String) -> (r: BlobModule)
        ensures
            r.greeting() == hi@,
    {
        BlobModule { hi }
    }
}

impl StringModule {
    /// The module's greeting.
    pub closed spec fn greeting(self) -> Seq<char> {
        self.hi@
    }

    /// A String module with greeting `hi`.
    pub fn new(hi: String) -> (r: StringModule)
        ensures
            r.greeting() == hi@,
    {
        StringModule { hi }
    }
}

} // verus!
