//! Store queries as an explicit tagged filter type.
//!
//! Every query the managers run against their store is one of three shapes:
//! equality on the username, equality on the identity key, or possession of
//! a live token with a given value at a given time. A lookup that receives
//! both a username and an identity key uses the username outright and
//! discards the key; one that receives neither queries nothing at all.

use vstd::prelude::*;

verus! {

/// The mathematical form of one store query.
pub enum StoreSelector {
    ByUsername(Seq<char>),
    ByUuid(Seq<char>),
    ByLiveToken(Seq<char>, u64),
}

/// The executable form of one store query, borrowing its criterion.
pub enum Filter<'a> {
    ByUsername(&'a String),
    ByUuid(&'a String),
    ByLiveToken(&'a String, u64),
}

impl<'a> View for Filter<'a> {
    type V = StoreSelector;

    open spec fn view(&self) -> StoreSelector {
        match *self {
            Filter::ByUsername(n) => StoreSelector::ByUsername(n@),
            Filter::ByUuid(i) => StoreSelector::ByUuid(i@),
            Filter::ByLiveToken(t, now) => StoreSelector::ByLiveToken(t@, now),
        }
    }
}

/// The view of an optional borrowed criterion.
pub open spec fn opt_view(s: Option<&String>) -> Option<Seq<char>> {
    match s {
        Option::None => None,
        Option::Some(x) => Some(x@),
    }
}

/// The documented lookup precedence over two optional criteria: a supplied
/// username wins outright and the identity key is discarded, not combined;
/// the key alone is used otherwise; with neither there is no query.
pub open spec fn selector_of(username: Option<Seq<char>>, uuid: Option<Seq<char>>) -> Option<
    StoreSelector,
> {
    if username is Some {
        Some(StoreSelector::ByUsername(username.unwrap()))
    } else if uuid is Some {
        Some(StoreSelector::ByUuid(uuid.unwrap()))
    } else {
        None
    }
}

/// Build the filter for a lookup or deletion from its two optional
/// criteria, applying the username-wins precedence.
pub fn lookup_filter<'a>(username: Option<&'a String>, uuid: Option<&'a String>) -> (r: Option<
    Filter<'a>,
>)
    ensures
        match r {
            Option::None => selector_of(opt_view(username), opt_view(uuid)) is None,
            Option::Some(f) => selector_of(opt_view(username), opt_view(uuid)) == Some(f@),
        },
{
    match username {
        Option::Some(n) => Some(Filter::ByUsername(n)),
        Option::None => match uuid {
            Option::Some(i) => Some(Filter::ByUuid(i)),
            Option::None => None,
        },
    }
}

} // verus!
