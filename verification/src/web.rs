//! Serving assets under the conditional-GET contract.

use crate::file::{FileView, StaticFile, StaticFileView};
use crate::registry::{Producer, ProducerView, Registry};
use crate::resolve::PendingRead;
use vstd::prelude::*;

verus! {

/// A full response: the bytes of the asset go out with its content type and
/// its entity tag.
#[derive(Debug)]
pub struct StaticResponse(pub StaticFile);

/// A wrapper for the `If-None-Match` HTTP header.
#[derive(Debug)]
pub struct IfNoneMatch(pub String);

/// The answer to a conditional request: the client's copy is still good, or
/// here is the response.
#[derive(Debug)]
pub enum Cached<T> {
    Cached,
    Uncached(T),
}

/// The validator that a request carries, if it carries one.
pub open spec fn validator_view(inm: Option<IfNoneMatch>) -> Option<Seq<char>> {
    match inm {
        Some(header) => Some(header.0@),
        None => None,
    }
}

/// The model of an answer.
pub open spec fn cached_view(answer: Cached<StaticResponse>) -> Cached<StaticFileView> {
    match answer {
        Cached::Cached => Cached::Cached,
        Cached::Uncached(response) => Cached::Uncached(response.0@),
    }
}

/// The conditional-GET decision. The client's copy is still good exactly
/// when the request carries a validator and the validator equals the entity
/// tag of the asset, character for character. The validator is not parsed:
/// neither lists nor wildcards nor the weakness prefix mean anything here.
pub open spec fn conditional(asset: StaticFileView, validator: Option<Seq<char>>) -> Cached<
    StaticFileView,
> {
    if validator == Some(asset.etag) {
        Cached::Cached
    } else {
        Cached::Uncached(asset)
    }
}

/// What a lookup comes to.
#[derive(Debug)]
pub enum Lookup {
    /// The asset was at hand, and this is the answer.
    Ready(Cached<StaticResponse>),
    /// The asset has to be resolved first. Once it is, `respond` gives the
    /// answer for the validator that is handed back here.
    Resolve(PendingRead, Option<IfNoneMatch>),
}

/// The model of what a lookup comes to.
pub enum LookupView {
    Ready(Cached<StaticFileView>),
    Resolve(FileView, Option<Seq<char>>),
}

impl View for Lookup {
    type V = LookupView;

    open spec fn view(&self) -> LookupView {
        match self {
            Lookup::Ready(answer) => LookupView::Ready(cached_view(*answer)),
            Lookup::Resolve(pending, inm) => LookupView::Resolve(
                pending.file(),
                validator_view(*inm),
            ),
        }
    }
}

/// What looking up `path` comes to in a registry that holds `map`: nothing
/// where the path is not registered, the conditional answer where the asset
/// is embedded, and a resolution to carry out where it is lazy.
pub open spec fn looked_up(
    map: Map<Seq<char>, ProducerView>,
    path: Seq<char>,
    validator: Option<Seq<char>>,
) -> Option<LookupView> {
    if !map.contains_key(path) {
        None
    } else {
        match map[path] {
            ProducerView::Embedded(asset) => Some(LookupView::Ready(conditional(asset, validator))),
            ProducerView::Lazy(file) => Some(LookupView::Resolve(file, validator)),
        }
    }
}

/// Answers a request for an asset that is at hand.
pub fn respond(asset: StaticFile, inm: Option<IfNoneMatch>) -> (answer: Cached<StaticResponse>)
    ensures
        cached_view(answer) == conditional(asset@, validator_view(inm)),
{
    if let Some(IfNoneMatch(i)) = inm {
        if asset.etag == i {
            return Cached::Cached;
        }
    }
    Cached::Uncached(StaticResponse(asset))
}

/// Look up and possibly serve the given entry of the registry.
///
/// If the file is present, but its `etag` matches the value of the `inm`
/// argument, `Cached::Cached` will be returned.
pub fn lookup_file(registry: &Registry, path: &str, inm: Option<IfNoneMatch>) -> (found: Option<
    Lookup,
>)
    requires
        registry.populated(),
    ensures
        match found {
            Some(lookup) => looked_up(registry.map(), path@, validator_view(inm)) == Some(lookup@),
            None => looked_up(registry.map(), path@, validator_view(inm)) is None,
        },
        found is None <==> !registry.map().contains_key(path@),
{
    match registry.get(path) {
        None => None,
        Some(Producer::Embedded(asset)) => Some(Lookup::Ready(respond(asset.clone(), inm))),
        Some(Producer::Lazy(file)) => Some(Lookup::Resolve(file.clone().resolve(), inm)),
    }
}

/// An asset is not sent again to a client that names its entity tag, and is
/// sent in full to a client that names another tag or none.
pub proof fn lemma_conditional_cache(asset: StaticFileView, other: Seq<char>)
    ensures
        conditional(asset, Some(asset.etag)) == Cached::<StaticFileView>::Cached,
        other != asset.etag ==> conditional(asset, Some(other)) == Cached::Uncached(asset),
        conditional(asset, None) == Cached::Uncached(asset),
{
}

} // verus!
