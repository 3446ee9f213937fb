use vstd::prelude::*;

use crate::users::object_id::is_normal_object_id;

verus! {

/// A stored user document. The document store's generated identifier is
/// carried as its canonical hex rendering: 24 lowercase hex digits.
pub struct User {
    pub _id: String,
    pub first_name: String,
    pub last_name: String,
    pub email: String,
    pub age: Option<u8>,
}

impl User {
    /// A stored document is well formed when its identifier is in the
    /// canonical hex form the store generates.
    pub open spec fn wf(self) -> bool {
        is_normal_object_id(self._id@)
    }
}

} // verus!
