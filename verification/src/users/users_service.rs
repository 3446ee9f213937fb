use vstd::prelude::*;

use crate::users::users_repository::{has_user_with_id, matches_id, UserStore};

verus! {

/// Thin orchestration layer between the controller and the data-access
/// layer: deletion is delegated unchanged.
pub fn delete_by_id(store: &mut UserStore, id: &str)
    requires
        old(store).wf(),
    ensures
        final(store).wf(),
        !has_user_with_id(old(store).users@, id@) ==> *final(store) == *old(store),
        has_user_with_id(old(store).users@, id@) ==> exists|i: int|
            0 <= i < old(store).users@.len() && #[trigger] matches_id(old(store).users@[i], id@)
                && final(store).users@ == old(store).users@.remove(i),
{
    store.delete_by_id(id);
}

} // verus!
