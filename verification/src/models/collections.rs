//! One page of a listing.

use crate::error::Error;
use crate::json::{optional_int_of, optional_items_of, optional_text_of, Json};
use crate::models::resources::{copy_resources, resource_views, Resource, ResourceView};
use vstd::prelude::*;

verus! {

/// One page of search results: the resources on it, and what the service
/// says of the whole listing.
///
/// Each of the four parts may be missing from an answer, whatever the
/// others do. A page whose list of resources is missing holds none.
#[derive(Debug)]
pub struct Collection {
    collection: Vec<Resource>,
    total_results: Option<i64>,
    next_href: Option<String>,
    query_urn: Option<String>,
}

/// What a `Collection` holds.
pub struct CollectionView {
    pub collection: Seq<ResourceView>,
    pub total_results: Option<i64>,
    pub next_href: Option<Seq<char>>,
    pub query_urn: Option<Seq<char>>,
}

impl View for Collection {
    type V = CollectionView;

    closed spec fn view(&self) -> CollectionView {
        CollectionView {
            collection: resource_views(self.collection@),
            total_results: self.total_results,
            next_href: self.next_href.deep_view(),
            query_urn: self.query_urn.deep_view(),
        }
    }
}

impl CollectionView {
    /// The page that the JSON value `json` describes, if it describes one:
    /// an object whose members `collection`, `total_results`, `next_href`
    /// and `query_urn` are each left out, `null`, or of their type, the
    /// first being an array of resources. A `collection` that is not given
    /// stands for no resources.
    pub open spec fn of(json: Json) -> Option<CollectionView> {
        if !(json is Object) {
            None
        } else {
            match (
                optional_items_of(json.field("collection"@)),
                optional_int_of(json.field("total_results"@)),
                optional_text_of(json.field("next_href"@)),
                optional_text_of(json.field("query_urn"@)),
            ) {
                (Some(items), Some(total_results), Some(next_href), Some(query_urn)) => {
                    match ResourceView::all_of(items) {
                        Some(collection) => Some(
                            CollectionView { collection, total_results, next_href, query_urn },
                        ),
                        None => None,
                    }
                },
                _ => None,
            }
        }
    }

    /// The page that holds nothing but the total `total_results`.
    pub open spec fn only_total(total_results: Option<i64>) -> CollectionView {
        CollectionView {
            collection: Seq::empty(),
            total_results,
            next_href: None,
            query_urn: None,
        }
    }
}

impl Clone for Collection {
    fn clone(&self) -> (copy: Self)
        ensures
            copy@ == self@,
    {
        Collection {
            collection: copy_resources(&self.collection),
            total_results: self.total_results,
            next_href: self.next_href.clone(),
            query_urn: self.query_urn.clone(),
        }
    }
}

impl Collection {
    /// Decodes a page from a JSON value.
    ///
    /// Any object will do whose members, as far as they are given, are of
    /// their types: none of the four has to be there.
    pub fn from_json(json: &Json) -> (decoded: Result<Collection, Error>)
        ensures
            decoded matches Ok(page) ==> CollectionView::of(*json) == Some(page@),
            decoded matches Err(e) ==> CollectionView::of(*json) is None && e.is_wrong_shape(),
    {
        match json {
            Json::Object(_) => {},
            _ => return Err(Error::wrong_shape()),
        }
        let none: Vec<Json> = Vec::new();
        let items = match json.get("collection") {
            None => &none,
            Some(Json::Null) => &none,
            Some(Json::Array(items)) => items,
            Some(_) => return Err(Error::wrong_shape()),
        };
        assert(optional_items_of(json.field("collection"@)) == Some(items@)) by {
            assert(none@ =~= Seq::<Json>::empty());
        }
        let total_results = match json.optional_integer("total_results") {
            Some(value) => value,
            None => return Err(Error::wrong_shape()),
        };
        let next_href = match json.optional_text("next_href") {
            Some(value) => value,
            None => return Err(Error::wrong_shape()),
        };
        let query_urn = match json.optional_text("query_urn") {
            Some(value) => value,
            None => return Err(Error::wrong_shape()),
        };
        let collection = Resource::all_from_json(items)?;
        Ok(Collection { collection, total_results, next_href, query_urn })
    }

    /// The resources on this page, in the order the service lists them.
    pub fn collection(&self) -> (collection: Vec<Resource>)
        ensures
            resource_views(collection@) == self@.collection,
    {
        copy_resources(&self.collection)
    }

    /// How many results the whole listing has.
    pub fn total_results(&self) -> (total_results: Option<i64>)
        ensures
            total_results == self@.total_results,
    {
        self.total_results
    }

    /// The link to the next page.
    pub fn next_href(&self) -> (next_href: Option<String>)
        ensures
            next_href.deep_view() == self@.next_href,
    {
        self.next_href.clone()
    }

    /// The identifier by which the service knows this query.
    pub fn query_urn(&self) -> (query_urn: Option<String>)
        ensures
            query_urn.deep_view() == self@.query_urn,
    {
        self.query_urn.clone()
    }
}

/// An object that gives the total alone, or nothing at all, is a page: it
/// holds no resources, no link and no identifier, and the total it gives.
pub proof fn lemma_page_of_the_total_alone(json: Json, total_results: Option<i64>)
    requires
        json is Object,
        json.field("collection"@) is None,
        json.field("next_href"@) is None,
        json.field("query_urn"@) is None,
        optional_int_of(json.field("total_results"@)) == Some(total_results),
    ensures
        CollectionView::of(json) == Some(CollectionView::only_total(total_results)),
{
    let none = Seq::<Json>::empty();
    assert(ResourceView::all_of(none).unwrap() =~= Seq::<ResourceView>::empty());
}

} // verus!
