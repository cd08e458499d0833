//! The runtime registry: a write-once map from logical paths to the
//! producers of their assets.

use crate::file::{File, FileView, StaticFile, StaticFileView};
use vstd::prelude::*;
use vstd::string::StringExecFns;

verus! {

/// How an asset comes to be when it is asked for.
#[derive(Debug)]
pub enum Producer {
    /// The declaration is resolved afresh on every request.
    Lazy(File),
    /// The asset was resolved when the program was built.
    Embedded(StaticFile),
}

/// The model of a producer.
pub enum ProducerView {
    Lazy(FileView),
    Embedded(StaticFileView),
}

impl View for Producer {
    type V = ProducerView;

    open spec fn view(&self) -> ProducerView {
        match self {
            Producer::Lazy(file) => ProducerView::Lazy(file@),
            Producer::Embedded(asset) => ProducerView::Embedded(asset@),
        }
    }
}

impl ProducerView {
    /// The logical path of the asset that is produced.
    pub open spec fn name(self) -> Seq<char> {
        match self {
            ProducerView::Lazy(file) => file.name(),
            ProducerView::Embedded(asset) => asset.name,
        }
    }
}

impl Producer {
    /// The logical path of the asset that is produced.
    pub fn name(&self) -> (name: &str)
        ensures
            name@ == self@.name(),
    {
        match self {
            Producer::Lazy(file) => file.logical_path(),
            Producer::Embedded(asset) => asset.name.as_str(),
        }
    }
}

impl Clone for Producer {
    fn clone(&self) -> (copy: Producer)
        ensures
            copy@ == self@,
    {
        match self {
            Producer::Lazy(file) => Producer::Lazy(file.clone()),
            Producer::Embedded(asset) => Producer::Embedded(asset.clone()),
        }
    }
}

/// The models of a sequence of producers.
pub open spec fn producers_view(v: Seq<Producer>) -> Seq<ProducerView> {
    Seq::new(v.len(), |i: int| v[i]@)
}

/// The models of a sequence of entries: each key with its producer.
pub open spec fn entries_view(v: Seq<(String, Producer)>) -> Seq<(Seq<char>, ProducerView)> {
    Seq::new(v.len(), |i: int| (v[i].0@, v[i].1@))
}

/// The entries under which producers are registered: each under the logical
/// path of its asset.
pub open spec fn keyed(producers: Seq<ProducerView>) -> Seq<(Seq<char>, ProducerView)> {
    Seq::new(producers.len(), |i: int| (producers[i].name(), producers[i]))
}

/// The map that a sequence of entries builds when they are inserted in
/// order: of two entries under one key, the later stays.
pub open spec fn entries_map(entries: Seq<(Seq<char>, ProducerView)>) -> Map<
    Seq<char>,
    ProducerView,
>
    decreases entries.len(),
{
    if entries.len() == 0 {
        Map::empty()
    } else {
        entries_map(entries.drop_last()).insert(entries.last().0, entries.last().1)
    }
}

/// Entries that do not carry the key `key` make no difference to what the
/// map holds under `key`.
proof fn lemma_entries_map_skips(entries: Seq<(Seq<char>, ProducerView)>, i: int, key: Seq<char>)
    requires
        0 <= i <= entries.len(),
        forall|k: int| i <= k < entries.len() ==> entries[k].0 != key,
    ensures
        entries_map(entries).contains_key(key) == entries_map(entries.take(i)).contains_key(key),
        entries_map(entries).contains_key(key) ==> entries_map(entries)[key] == entries_map(
            entries.take(i),
        )[key],
    decreases entries.len() - i,
{
    if i == entries.len() {
        assert(entries.take(i) =~= entries);
    } else {
        assert(entries.drop_last().take(i) =~= entries.take(i));
        lemma_entries_map_skips(entries.drop_last(), i, key);
    }
}

/// The entries for a list of producers: each producer under the logical
/// path of its asset, in the order given.
pub fn entries_for(producers: &Vec<Producer>) -> (entries: Vec<(String, Producer)>)
    ensures
        entries_view(entries@) == keyed(producers_view(producers@)),
{
    let mut entries: Vec<(String, Producer)> = Vec::new();
    let mut i: usize = 0;
    while i < producers.len()
        invariant
            i <= producers@.len(),
            entries@.len() == i,
            forall|k: int|
                0 <= k < i ==> entries@[k].0@ == producers@[k]@.name() && entries@[k].1@
                    == producers@[k]@,
        decreases producers@.len() - i,
    {
        entries.push((String::from_str(producers[i].name()), producers[i].clone()));
        i += 1;
    }
    assert(entries_view(entries@) =~= keyed(producers_view(producers@)));
    entries
}

/// The registry of a process. It starts out unpopulated, is populated once,
/// and is only read from then on.
pub struct Registry {
    entries: Option<Vec<(String, Producer)>>,
}

impl Registry {
    /// Whether the registry has been populated.
    pub closed spec fn populated(&self) -> bool {
        self.entries is Some
    }

    /// What the registry holds under each logical path.
    pub closed spec fn map(&self) -> Map<Seq<char>, ProducerView> {
        match self.entries {
            Some(entries) => entries_map(entries_view(entries@)),
            None => Map::empty(),
        }
    }

    /// A registry that has not been populated yet.
    pub fn new() -> (registry: Registry)
        ensures
            !registry.populated(),
            registry.map() == Map::<Seq<char>, ProducerView>::empty(),
    {
        Registry { entries: None }
    }

    /// Whether the registry has been populated.
    pub fn is_populated(&self) -> (yes: bool)
        ensures
            yes == self.populated(),
    {
        self.entries.is_some()
    }

    /// Populates the registry with `entries`, inserted in order. Only the
    /// first call does anything: on a populated registry the entries are
    /// dropped, the registry stays as it is, and the answer is `false`.
    pub fn populate(&mut self, entries: Vec<(String, Producer)>) -> (done: bool)
        ensures
            done == !old(self).populated(),
            final(self).populated(),
            old(self).populated() ==> *final(self) == *old(self),
            !old(self).populated() ==> final(self).map() == entries_map(entries_view(entries@)),
    {
        if self.entries.is_some() {
            false
        } else {
            self.entries = Some(entries);
            true
        }
    }

    /// Looks up the producer of the asset at `logical_path`. The lookup has
    /// no effect on the registry.
    pub fn get(&self, logical_path: &str) -> (found: Option<&Producer>)
        requires
            self.populated(),
        ensures
            match found {
                Some(producer) => {
                    &&& self.map().contains_key(logical_path@)
                    &&& self.map()[logical_path@] == producer@
                },
                None => !self.map().contains_key(logical_path@),
            },
    {
        let key: String = String::from_str(logical_path);
        let entries: &Vec<(String, Producer)> = self.entries.as_ref().unwrap();
        let ghost model = entries_view(entries@);
        let mut i: usize = entries.len();
        while i > 0
            invariant
                i <= entries@.len(),
                model == entries_view(entries@),
                self.map() == entries_map(model),
                key@ == logical_path@,
                forall|k: int| i <= k < model.len() ==> model[k].0 != key@,
            decreases i,
        {
            i -= 1;
            if entries[i].0 == key {
                proof {
                    let head = model.take(i as int + 1);
                    lemma_entries_map_skips(model, i as int + 1, key@);
                    assert(head.last() == model[i as int]);
                    assert(entries_map(head) == entries_map(head.drop_last()).insert(
                        head.last().0,
                        head.last().1,
                    ));
                }
                return Some(&entries[i].1);
            }
        }
        proof {
            lemma_entries_map_skips(model, 0, key@);
            assert(model.take(0) =~= Seq::empty());
        }
        None
    }
}

} // verus!
