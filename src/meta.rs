//! Object metadata: labels and annotations as ordered key/value lists.

use vstd::prelude::*;
use crate::text::text_eq;

verus! {

pub open spec fn pairs_view(v: Seq<(String, String)>) -> Seq<(Seq<char>, Seq<char>)> {
    v.map_values(|p: (String, String)| (p.0@, p.1@))
}

/// The value of the first entry of `entries` whose key is `key`.
pub open spec fn lookup(entries: Seq<(Seq<char>, Seq<char>)>, key: Seq<char>) -> Option<Seq<char>>
    decreases entries.len(),
{
    if entries.len() == 0 {
        None
    } else if entries[0].0 == key {
        Some(entries[0].1)
    } else {
        lookup(entries.drop_first(), key)
    }
}

/// Finds the value stored under `key`.
pub fn lookup_value<'a>(entries: &'a Vec<(String, String)>, key: &str) -> (r: Option<&'a String>)
    ensures
        match r {
            Some(v) => lookup(pairs_view(entries@), key@) == Some(v@),
            None => lookup(pairs_view(entries@), key@) is None,
        },
{
    let ghost all = pairs_view(entries@);
    let mut i: usize = 0;
    assert(all.skip(0) =~= all);
    while i < entries.len()
        invariant
            i <= entries@.len(),
            all == pairs_view(entries@),
            lookup(all, key@) == lookup(all.skip(i as int), key@),
        decreases entries@.len() - i,
    {
        assert(all.skip(i as int)[0] == all[i as int]);
        if text_eq(entries[i].0.as_str(), key) {
            return Some(&entries[i].1);
        }
        assert(all.skip(i as int).drop_first() =~= all.skip(i + 1));
        i = i + 1;
    }
    assert(all.skip(i as int).len() == 0);
    None
}

/// The labels and annotations of an object.
#[derive(Debug, Clone)]
pub struct Metadata {
    pub labels: Option<Vec<(String, String)>>,
    pub annotations: Option<Vec<(String, String)>>,
}

pub struct MetadataView {
    pub labels: Option<Seq<(Seq<char>, Seq<char>)>>,
    pub annotations: Option<Seq<(Seq<char>, Seq<char>)>>,
}

pub open spec fn opt_pairs_view(v: Option<Vec<(String, String)>>) -> Option<Seq<(Seq<char>, Seq<char>)>> {
    match v {
        Some(v) => Some(pairs_view(v@)),
        None => None,
    }
}

impl View for Metadata {
    type V = MetadataView;

    open spec fn view(&self) -> MetadataView {
        MetadataView { labels: opt_pairs_view(self.labels), annotations: opt_pairs_view(self.annotations) }
    }
}

pub open spec fn lookup_opt(entries: Option<Seq<(Seq<char>, Seq<char>)>>, key: Seq<char>) -> Option<Seq<char>> {
    match entries {
        Some(e) => lookup(e, key),
        None => None,
    }
}

impl MetadataView {
    pub open spec fn label(self, key: Seq<char>) -> Option<Seq<char>> {
        lookup_opt(self.labels, key)
    }

    pub open spec fn annotation(self, key: Seq<char>) -> Option<Seq<char>> {
        lookup_opt(self.annotations, key)
    }
}

impl Metadata {
    /// The value of the label `key`, if the object carries it.
    pub fn label(&self, key: &str) -> (r: Option<&String>)
        ensures
            match r {
                Some(v) => self@.label(key@) == Some(v@),
                None => self@.label(key@) is None,
            },
    {
        match &self.labels {
            Some(labels) => lookup_value(labels, key),
            None => None,
        }
    }

    /// The value of the annotation `key`, if the object carries it.
    pub fn annotation(&self, key: &str) -> (r: Option<&String>)
        ensures
            match r {
                Some(v) => self@.annotation(key@) == Some(v@),
                None => self@.annotation(key@) is None,
            },
    {
        match &self.annotations {
            Some(annotations) => lookup_value(annotations, key),
            None => None,
        }
    }
}

} // verus!
