//! The map from the names a shader gives its uniforms to the names they
//! bear in the translated code.
use super::text::decode;
use core::str::Utf8Error;
use vstd::prelude::*;
use vstd::utf8::*;

verus! {

/// The map that a list of entries stands for: each entry maps its first
/// text to its second, and a later entry replaces an earlier one for the
/// same first text.
pub open spec fn entries_map(entries: Seq<(String, String)>) -> Map<Seq<char>, Seq<char>>
    decreases entries.len(),
{
    if entries.len() == 0 {
        Map::empty()
    } else {
        entries_map(entries.drop_last()).insert(entries.last().0@, entries.last().1@)
    }
}

/// No two entries of the list have the same first text.
pub open spec fn distinct_keys(entries: Seq<(String, String)>) -> bool {
    forall|i: int, j: int| 0 <= i < j < entries.len() ==> entries[i].0@ != entries[j].0@
}

/// The first texts of a list of entries, in order.
pub open spec fn key_texts(entries: Seq<(String, String)>) -> Seq<Seq<char>> {
    Seq::new(entries.len(), |i: int| entries[i].0@)
}

/// The texts of a list of strings, in order.
pub open spec fn texts(strings: Seq<String>) -> Seq<Seq<char>> {
    Seq::new(strings.len(), |i: int| strings[i]@)
}

proof fn lemma_entries_dom(entries: Seq<(String, String)>)
    ensures
        entries_map(entries).dom().finite(),
        entries_map(entries).dom() =~= key_texts(entries).to_set(),
    decreases entries.len(),
{
    if entries.len() == 0 {
        assert(key_texts(entries) =~= Seq::<Seq<char>>::empty());
    } else {
        let front = entries.drop_last();
        lemma_entries_dom(front);
        let keys = key_texts(entries);
        assert forall|k: Seq<char>|
            entries_map(entries).dom().contains(k) <==> keys.to_set().contains(k) by {
            if entries_map(entries).dom().contains(k) {
                if k == entries.last().0@ {
                    assert(keys[entries.len() - 1] == k);
                } else {
                    assert(key_texts(front).to_set().contains(k));
                    let i = choose|i: int| 0 <= i < front.len() && key_texts(front)[i] == k;
                    assert(keys[i] == k);
                }
            }
            if keys.to_set().contains(k) {
                let i = choose|i: int| 0 <= i < keys.len() && keys[i] == k;
                if i < front.len() {
                    assert(key_texts(front)[i] == k);
                    assert(key_texts(front).to_set().contains(k));
                }
            }
        }
    }
}

proof fn lemma_entries_lookup(entries: Seq<(String, String)>, i: int)
    requires
        distinct_keys(entries),
        0 <= i < entries.len(),
    ensures
        entries_map(entries).contains_key(entries[i].0@),
        entries_map(entries)[entries[i].0@] == entries[i].1@,
    decreases entries.len(),
{
    if i < entries.len() - 1 {
        lemma_entries_lookup(entries.drop_last(), i);
    }
}

proof fn lemma_entries_len(entries: Seq<(String, String)>)
    requires
        distinct_keys(entries),
    ensures
        entries_map(entries).dom().finite(),
        entries_map(entries).dom().len() == entries.len(),
    decreases entries.len(),
{
    lemma_entries_dom(entries);
    if entries.len() > 0 {
        let front = entries.drop_last();
        lemma_entries_len(front);
        lemma_entries_dom(front);
        let key = entries.last().0@;
        if entries_map(front).dom().contains(key) {
            let i = choose|i: int| 0 <= i < front.len() && key_texts(front)[i] == key;
            assert(entries[i].0@ == entries[entries.len() - 1].0@);
        }
    }
}

proof fn lemma_entries_replace(entries: Seq<(String, String)>, i: int, entry: (String, String))
    requires
        distinct_keys(entries),
        0 <= i < entries.len(),
        entry.0@ == entries[i].0@,
    ensures
        distinct_keys(entries.update(i, entry)),
        entries_map(entries.update(i, entry)) == entries_map(entries).insert(entry.0@, entry.1@),
    decreases entries.len(),
{
    let after = entries.update(i, entry);
    let front = entries.drop_last();
    if i == entries.len() - 1 {
        assert(after.drop_last() =~= front);
        assert(entries_map(after) =~= entries_map(entries).insert(entry.0@, entry.1@));
    } else {
        lemma_entries_replace(front, i, entry);
        assert(after.drop_last() =~= front.update(i, entry));
        assert(entries[i].0@ != entries[entries.len() - 1].0@);
        assert(entries_map(after) =~= entries_map(entries).insert(entry.0@, entry.1@));
    }
}

/// A finite map from text to text.
#[derive(Debug)]
pub struct UniformNameMap {
    entries: Vec<(String, String)>,
}

impl View for UniformNameMap {
    type V = Map<Seq<char>, Seq<char>>;

    closed spec fn view(&self) -> Map<Seq<char>, Seq<char>> {
        entries_map(self.entries@)
    }
}

impl UniformNameMap {
    #[verifier::type_invariant]
    spec fn well_formed(self) -> bool {
        distinct_keys(self.entries@)
    }

    /// The empty map.
    pub fn new() -> (names: Self)
        ensures
            names@ == Map::<Seq<char>, Seq<char>>::empty(),
    {
        UniformNameMap { entries: Vec::new() }
    }

    /// The number of names mapped.
    pub fn len(&self) -> (count: usize)
        ensures
            self@.dom().finite(),
            count == self@.dom().len(),
    {
        proof {
            use_type_invariant(self);
            lemma_entries_len(self.entries@);
        }
        self.entries.len()
    }

    /// Whether no name is mapped.
    pub fn is_empty(&self) -> (empty: bool)
        ensures
            empty <==> self@ == Map::<Seq<char>, Seq<char>>::empty(),
    {
        proof {
            use_type_invariant(self);
            lemma_entries_len(self.entries@);
            if self.entries@.len() == 0 {
                assert(self@ =~= Map::<Seq<char>, Seq<char>>::empty());
            }
        }
        self.entries.len() == 0
    }

    /// Where `name` stands among the entries, if it is mapped.
    fn position(&self, name: &String) -> (found: Option<usize>)
        ensures
            found is Some <==> self@.contains_key(name@),
            found matches Some(i) ==> i < self.entries@.len() && self.entries@[i as int].0@
                == name@,
    {
        let mut i: usize = 0;
        while i < self.entries.len()
            invariant
                i <= self.entries@.len(),
                forall|j: int| 0 <= j < i ==> self.entries@[j].0@ != name@,
            decreases self.entries@.len() - i,
        {
            if self.entries[i].0 == *name {
                proof {
                    lemma_entries_dom(self.entries@);
                    assert(key_texts(self.entries@)[i as int] == name@);
                }
                return Some(i);
            }
            i += 1;
        }
        proof {
            lemma_entries_dom(self.entries@);
            if self@.contains_key(name@) {
                let j = choose|j: int|
                    0 <= j < self.entries@.len() && key_texts(self.entries@)[j] == name@;
                assert(self.entries@[j].0@ == name@);
            }
        }
        None
    }

    /// Maps `name` to `mapped`, in place of what `name` was mapped to before.
    pub fn insert(&mut self, name: String, mapped: String)
        ensures
            final(self)@ == old(self)@.insert(name@, mapped@),
    {
        proof {
            use_type_invariant(&*self);
        }
        let found = self.position(&name);
        let mut taken = UniformNameMap { entries: Vec::new() };
        core::mem::swap(self, &mut taken);
        let mut entries = taken.entries;
        match found {
            Some(i) => {
                proof {
                    lemma_entries_replace(entries@, i as int, (name, mapped));
                }
                entries[i] = (name, mapped);
            },
            None => {
                proof {
                    lemma_entries_dom(entries@);
                    assert forall|j: int| 0 <= j < entries@.len() implies entries@[j].0@
                        != name@ by {
                        assert(key_texts(entries@)[j] == entries@[j].0@);
                    }
                    assert(entries@.push((name, mapped)).drop_last() =~= entries@);
                }
                entries.push((name, mapped));
            },
        }
        *self = UniformNameMap { entries };
    }

    /// What `name` is mapped to, if it is mapped.
    pub fn get(&self, name: &str) -> (mapped: Option<&String>)
        ensures
            mapped is Some <==> self@.contains_key(name@),
            mapped matches Some(text) ==> text@ == self@[name@],
    {
        proof {
            use_type_invariant(self);
        }
        let key = name.to_owned();
        match self.position(&key) {
            Some(i) => {
                proof {
                    lemma_entries_lookup(self.entries@, i as int);
                }
                Some(&self.entries[i].1)
            },
            None => None,
        }
    }

    /// The names mapped, each once, in no particular order.
    pub fn keys(&self) -> (names: Vec<String>)
        ensures
            texts(names@).no_duplicates(),
            texts(names@).to_set() == self@.dom(),
    {
        proof {
            use_type_invariant(self);
            lemma_entries_dom(self.entries@);
        }
        let mut names: Vec<String> = Vec::new();
        let mut i: usize = 0;
        while i < self.entries.len()
            invariant
                i <= self.entries@.len(),
                names@.len() == i,
                forall|j: int| 0 <= j < i ==> (#[trigger] names@[j])@ == self.entries@[j].0@,
            decreases self.entries@.len() - i,
        {
            names.push(self.entries[i].0.clone());
            i += 1;
        }
        assert(texts(names@) =~= key_texts(self.entries@));
        names
    }

    /// The map as a list of pairs of a name and what it is mapped to, each
    /// name once, in no particular order.
    pub fn into_entries(self) -> (entries: Vec<(String, String)>)
        ensures
            distinct_keys(entries@),
            entries_map(entries@) == self@,
    {
        proof {
            use_type_invariant(&self);
        }
        self.entries
    }
}

/// What a list of pairs of byte buffers holds, pair by pair.
pub open spec fn pair_contents(pairs: Seq<(Vec<u8>, Vec<u8>)>) -> Seq<(Seq<u8>, Seq<u8>)> {
    Seq::new(pairs.len(), |i: int| (pairs[i].0@, pairs[i].1@))
}

/// Both names of the pair are well-formed UTF-8.
pub open spec fn pair_valid(pair: (Seq<u8>, Seq<u8>)) -> bool {
    valid_utf8(pair.0) && valid_utf8(pair.1)
}

/// Every name in the list is well-formed UTF-8.
pub open spec fn names_valid(pairs: Seq<(Seq<u8>, Seq<u8>)>) -> bool {
    forall|i: int| 0 <= i < pairs.len() ==> pair_valid(#[trigger] pairs[i])
}

/// The map that the engine's pairs of encoded names stand for: each pair
/// maps the text of its first name to the text of its second, and a later
/// pair replaces an earlier one for the same first name.
pub open spec fn name_map(pairs: Seq<(Seq<u8>, Seq<u8>)>) -> Map<Seq<char>, Seq<char>>
    decreases pairs.len(),
{
    if pairs.len() == 0 {
        Map::empty()
    } else {
        name_map(pairs.drop_last()).insert(
            decode_utf8(pairs.last().0),
            decode_utf8(pairs.last().1),
        )
    }
}

/// A name that the engine reported and that is not text.
#[derive(Debug, PartialEq, Eq)]
pub struct NameError {
    /// Which pair, counted from zero in the order the engine gave them.
    pub index: usize,
    /// Whether it is the name in the translated code that is malformed; if
    /// not, it is the name in the shader's source.
    pub in_mapped_name: bool,
    /// What the decoder found.
    pub cause: Utf8Error,
}

/// Decodes the pairs of names that the engine reported, in order, into a
/// map. The first name that is not well-formed UTF-8 ends the walk: the
/// error says where it stands, and the pairs after it are not looked at.
pub fn decode_names(pairs: &Vec<(Vec<u8>, Vec<u8>)>) -> (decoded: Result<UniformNameMap, NameError>)
    ensures
        decoded is Ok <==> names_valid(pair_contents(pairs@)),
        decoded matches Ok(names) ==> names@ == name_map(pair_contents(pairs@)),
        decoded matches Err(error) ==> {
            &&& error.index < pairs@.len()
            &&& names_valid(pair_contents(pairs@).take(error.index as int))
            &&& error.in_mapped_name == valid_utf8(pairs@[error.index as int].0@)
            &&& !pair_valid(pair_contents(pairs@)[error.index as int])
        },
{
    let ghost all = pair_contents(pairs@);
    let mut names = UniformNameMap::new();
    let mut i: usize = 0;
    while i < pairs.len()
        invariant
            i <= pairs@.len(),
            all == pair_contents(pairs@),
            names_valid(all.take(i as int)),
            names@ == name_map(all.take(i as int)),
        decreases pairs@.len() - i,
    {
        let name = match decode(pairs[i].0.as_slice()) {
            Ok(text) => text,
            Err(cause) => {
                assert(!pair_valid(all[i as int]));
                return Err(NameError { index: i, in_mapped_name: false, cause });
            },
        };
        let mapped = match decode(pairs[i].1.as_slice()) {
            Ok(text) => text,
            Err(cause) => {
                assert(!pair_valid(all[i as int]));
                return Err(NameError { index: i, in_mapped_name: true, cause });
            },
        };
        names.insert(name, mapped);
        proof {
            assert(all.take(i + 1).drop_last() =~= all.take(i as int));
            assert(all.take(i + 1).last() == all[i as int]);
        }
        i += 1;
    }
    assert(all.take(i as int) =~= all);
    Ok(names)
}

} // verus!
