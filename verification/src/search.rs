//! Search results as the API lists them.
use vstd::prelude::*;

verus! {

/// The entity a search result points at.
#[derive(Debug)]
pub struct Entity {
    merlin_id: u64,
    name: String,
    description: String,
}

/// The mathematical content of an [`Entity`].
pub struct EntityView {
    pub merlin_id: u64,
    pub name: Seq<char>,
    pub description: Seq<char>,
}

impl View for Entity {
    type V = EntityView;

    closed spec fn view(&self) -> EntityView {
        EntityView { merlin_id: self.merlin_id, name: self.name@, description: self.description@ }
    }
}

impl Clone for Entity {
    fn clone(&self) -> (r: Self)
        ensures
            r@ == self@,
    {
        Entity {
            merlin_id: self.merlin_id,
            name: self.name.clone(),
            description: self.description.clone(),
        }
    }
}

impl Entity {
    pub fn new(merlin_id: u64, name: String, description: String) -> (e: Entity)
        ensures
            e@ == (EntityView { merlin_id, name: name@, description: description@ }),
    {
        Entity { merlin_id, name, description }
    }

    pub fn merlin_id(&self) -> (m: u64)
        ensures
            m == self@.merlin_id,
    {
        self.merlin_id
    }

    pub fn name(&self) -> (n: &String)
        ensures
            n@ == self@.name,
    {
        &self.name
    }

    pub fn description(&self) -> (d: &String)
        ensures
            d@ == self@.description,
    {
        &self.description
    }
}

/// One search result: what it is called, its subtitle, and the entity it
/// refers to.
#[derive(Debug)]
pub struct SearchResult {
    name: String,
    subtitle: String,
    entity: Entity,
}

/// The mathematical content of a [`SearchResult`].
pub struct SearchResultView {
    pub name: Seq<char>,
    pub subtitle: Seq<char>,
    pub entity: EntityView,
}

impl View for SearchResult {
    type V = SearchResultView;

    closed spec fn view(&self) -> SearchResultView {
        SearchResultView { name: self.name@, subtitle: self.subtitle@, entity: self.entity@ }
    }
}

impl Clone for SearchResult {
    fn clone(&self) -> (r: Self)
        ensures
            r@ == self@,
    {
        SearchResult {
            name: self.name.clone(),
            subtitle: self.subtitle.clone(),
            entity: self.entity.clone(),
        }
    }
}

impl SearchResult {
    pub fn new(name: String, subtitle: String, entity: Entity) -> (r: SearchResult)
        ensures
            r@ == (SearchResultView { name: name@, subtitle: subtitle@, entity: entity@ }),
    {
        SearchResult { name, subtitle, entity }
    }

    pub fn name(&self) -> (n: &String)
        ensures
            n@ == self@.name,
    {
        &self.name
    }

    pub fn subtitle(&self) -> (s: &String)
        ensures
            s@ == self@.subtitle,
    {
        &self.subtitle
    }

    pub fn entity(&self) -> (e: &Entity)
        ensures
            e@ == self@.entity,
    {
        &self.entity
    }
}

} // verus!
