//! The provider boundary: list all ids, fetch one item by id.

use vstd::prelude::*;
use crate::errors::FetchError;

verus! {

/// What one listing call is promised to return, as far as contracts go.
pub enum ListingBehavior {
    /// Every listing returns exactly these ids, in this order.
    Lists { ids: Seq<Seq<char>> },
    /// Every listing fails, with exactly this message.
    Fails { message: Seq<char> },
    /// Nothing is promised of the listing.
    Undetermined,
}

/// What fetching one id is promised to return, as far as contracts go.
pub enum FetchBehavior {
    /// Every fetch of the id returns this payload.
    Succeeds { payload: serde_json::Value },
    /// Every fetch of the id fails, with exactly this message.
    Fails { message: Seq<char> },
    /// Nothing is promised of the fetch.
    Undetermined,
}

/// A provider of items: the narrow slice of an item store that an export run
/// needs. Implementations with nothing to promise about an operation answer
/// `Undetermined` for it; a deterministic provider pins both operations, and
/// the export pipeline's own contract is exact wherever the provider's is.
///
/// Implementations must tolerate `get_item` being called from several
/// workers at once; the two methods take `&self` and may not rely on any
/// per-call mutable state.
pub trait Op: Send + Sync {
    /// What one listing call is promised to return. Implementations that
    /// leave it unsaid promise nothing.
    open spec fn listing(&self) -> ListingBehavior {
        ListingBehavior::Undetermined
    }

    /// What fetching `id` is promised to return. Implementations that
    /// leave it unsaid promise nothing.
    open spec fn fetch(&self, id: Seq<char>) -> FetchBehavior {
        FetchBehavior::Undetermined
    }

    /// Lists the ids of all items the provider holds. Called once per run;
    /// a failure here is fatal to the run and is never retried.
    fn list_items(&self) -> (r: Result<Vec<String>, FetchError>)
        ensures
            self.listing() matches ListingBehavior::Lists { ids } ==> r matches Ok(v)
                && v.deep_view() == ids,
            self.listing() matches ListingBehavior::Fails { message: m } ==> r matches Err(e)
                && e matches FetchError::Provider { message } && message@ == m,
    ;

    /// Fetches the payload of one item by id.
    fn get_item(&self, id: &str) -> (r: Result<serde_json::Value, FetchError>)
        ensures
            self.fetch(id@) matches FetchBehavior::Succeeds { payload } ==> r == Ok::<
                serde_json::Value,
                FetchError,
            >(payload),
            self.fetch(id@) matches FetchBehavior::Fails { message: m } ==> r matches Err(e)
                && e matches FetchError::Provider { message } && message@ == m,
    ;
}

} // verus!
