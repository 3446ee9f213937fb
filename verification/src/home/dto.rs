use vstd::prelude::*;

verus! {

/// View model for the home page template: the first-visit timestamp and
/// a further cached value shown alongside it.
pub struct IndexData {
    pub iso_date: String,
    pub mykey: String,
}

/// Builds the home-page view model from the two values fetched for the
/// request.
pub fn build_index_data(iso_date: String, mykey: String) -> (r: IndexData)
    ensures
        r.iso_date == iso_date,
        r.mykey == mykey,
{
    IndexData { iso_date, mykey }
}

} // verus!
