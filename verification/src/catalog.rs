//! Translation catalogs: per-locale strings and palette color labels.

use vstd::prelude::*;
use crate::key::{Key, KEY_COUNT};
use crate::locale::{Locale, LOCALE_COUNT};

verus! {

/// Number of configurable palette colors, one label each in every catalog.
pub const PALETTE_LABEL_COUNT: usize = 29;

/// What a catalog holds: palette color labels in palette field order, and
/// for each key (by its position in [`Key::ALL`]) its translation, if any.
pub struct CatalogView {
    pub palette_labels: Seq<Seq<char>>,
    pub strings: Seq<Option<Seq<char>>>,
}

impl CatalogView {
    /// The translation of `key`, if the catalog has one.
    pub open spec fn text(self, key: Key) -> Option<Seq<char>> {
        self.strings[key.spec_index() as int]
    }
}

/// Number of keys that have a translation.
pub open spec fn count_translated(strings: Seq<Option<Seq<char>>>) -> nat
    decreases strings.len(),
{
    if strings.len() == 0 {
        0
    } else {
        count_translated(strings.drop_last()) + if strings.last() is Some {
            1nat
        } else {
            0nat
        }
    }
}

/// At most every key is translated, and all are exactly when the count
/// reaches the number of slots.
pub proof fn lemma_count_translated(strings: Seq<Option<Seq<char>>>)
    ensures
        count_translated(strings) <= strings.len(),
        count_translated(strings) == strings.len() <==> forall|i: int|
            0 <= i < strings.len() ==> (#[trigger] strings[i]) is Some,
    decreases strings.len(),
{
    if strings.len() > 0 {
        lemma_count_translated(strings.drop_last());
        if forall|i: int| 0 <= i < strings.len() ==> (#[trigger] strings[i]) is Some {
            assert forall|i: int| 0 <= i < strings.drop_last().len() implies (
            #[trigger] strings.drop_last()[i]) is Some by {
                assert(strings.drop_last()[i] == strings[i]);
            }
            assert(strings[strings.len() - 1] is Some);
        }
        if count_translated(strings) == strings.len() {
            assert forall|i: int| 0 <= i < strings.len() implies (#[trigger] strings[i]) is Some by {
                if i < strings.len() - 1 {
                    assert(strings.drop_last()[i] == strings[i]);
                }
            }
        }
    }
}

/// The translation that the last entry for `key` gives, if any entry does.
pub open spec fn entry_for(entries: Seq<(Key, Seq<char>)>, key: Key) -> Option<Seq<char>>
    decreases entries.len(),
{
    if entries.len() == 0 {
        None
    } else if entries.last().0 == key {
        Some(entries.last().1)
    } else {
        entry_for(entries.drop_last(), key)
    }
}

/// Entries as `(key, text)` pairs of character sequences.
pub open spec fn entries_view(entries: Seq<(Key, String)>) -> Seq<(Key, Seq<char>)> {
    Seq::new(entries.len(), |i: int| (entries[i].0, entries[i].1@))
}

/// Strings as character sequences.
pub open spec fn strings_view(strings: Seq<String>) -> Seq<Seq<char>> {
    Seq::new(strings.len(), |i: int| strings[i]@)
}

/// Named entries `(identifier, text)` read as `(key, text)`, each identifier
/// taken for the key it names.
pub open spec fn named_entries_view(entries: Seq<(String, String)>) -> Seq<(Key, Seq<char>)> {
    Seq::new(entries.len(), |i: int| (Key::spec_from_name(entries[i].0@)->0, entries[i].1@))
}

/// Every identifier among the named entries names a key.
pub open spec fn all_names_known(entries: Seq<(String, String)>) -> bool {
    forall|i: int| 0 <= i < entries.len() ==> (#[trigger] Key::spec_from_name(entries[i].0@)) is Some
}

/// Why a catalog could not be built.
#[derive(Debug, PartialEq, Eq)]
pub enum CatalogError {
    /// An entry is named by an identifier that is no key's; holds the identifier.
    UnknownKey(String),
}

/// Parsed contents of one locale catalog.
pub struct Catalog {
    palette_labels: Vec<String>,
    strings: Vec<Option<String>>,
}

impl View for Catalog {
    type V = CatalogView;

    closed spec fn view(&self) -> CatalogView {
        CatalogView {
            palette_labels: strings_view(self.palette_labels@),
            strings: Seq::new(
                self.strings@.len(),
                |i: int|
                    match self.strings@[i] {
                        Some(s) => Some(s@),
                        None => None,
                    },
            ),
        }
    }
}

impl Catalog {
    #[verifier::type_invariant]
    spec fn table_covers_keys(self) -> bool {
        self.strings@.len() == KEY_COUNT
    }

    /// Builds a catalog from palette labels and `(key, text)` entries; when
    /// a key occurs more than once, its last entry counts.
    pub fn new(palette_labels: Vec<String>, entries: Vec<(Key, String)>) -> (r: Catalog)
        ensures
            r@.palette_labels == strings_view(palette_labels@),
            r@.strings.len() == KEY_COUNT,
            forall|key: Key| #[trigger] r@.text(key) == entry_for(entries_view(entries@), key),
    {
        let mut strings: Vec<Option<String>> = Vec::new();
        let mut i: usize = 0;
        while i < KEY_COUNT
            invariant
                i <= KEY_COUNT,
                strings@.len() == i,
                forall|j: int| 0 <= j < i ==> strings@[j] is None,
            decreases KEY_COUNT - i,
        {
            strings.push(None);
            i += 1;
        }
        let ghost ev = entries_view(entries@);
        let mut e: usize = 0;
        while e < entries.len()
            invariant
                ev == entries_view(entries@),
                e <= entries@.len(),
                strings@.len() == KEY_COUNT,
                forall|key: Key|
                    #![trigger entry_for(ev.take(e as int), key)]
                    match strings@[key.spec_index() as int] {
                        Some(s) => entry_for(ev.take(e as int), key) == Some(s@),
                        None => entry_for(ev.take(e as int), key) is None,
                    },
            decreases entries@.len() - e,
        {
            let key = entries[e].0;
            let text = entries[e].1.clone();
            let slot = key.index();
            strings.set(slot, Some(text));
            proof {
                assert(ev.take(e + 1).drop_last() =~= ev.take(e as int));
                assert forall|k: Key|
                    #![trigger entry_for(ev.take(e + 1), k)]
                    match strings@[k.spec_index() as int] {
                        Some(s) => entry_for(ev.take(e + 1), k) == Some(s@),
                        None => entry_for(ev.take(e + 1), k) is None,
                    } by {
                    assert(entry_for(ev.take(e as int), k) == entry_for(ev.take(e + 1).drop_last(), k));
                    if k != key {
                        assert(k.spec_index() != key.spec_index());
                    }
                }
            }
            e += 1;
        }
        assert(ev.take(e as int) =~= ev);
        let r = Catalog { palette_labels, strings };
        assert forall|key: Key| #[trigger] r@.text(key) == entry_for(ev, key) by {
            assert(key.spec_index() < KEY_COUNT);
            assert(entry_for(ev.take(e as int), key) == entry_for(ev, key));
        }
        r
    }

    /// Builds a catalog from palette labels and entries named by their
    /// catalog identifiers (see [`Key::name`]). Fails on the first entry whose
    /// identifier names no key; when a key occurs more than once, its last
    /// entry counts.
    pub fn from_named_entries(palette_labels: Vec<String>, entries: Vec<(String, String)>) -> (r:
        Result<Catalog, CatalogError>)
        ensures
            r is Ok <==> all_names_known(entries@),
            r matches Ok(c) ==> {
                &&& c@.palette_labels == strings_view(palette_labels@)
                &&& c@.strings.len() == KEY_COUNT
                &&& forall|key: Key| #[trigger]
                    c@.text(key) == entry_for(named_entries_view(entries@), key)
            },
            r matches Err(CatalogError::UnknownKey(name)) ==> exists|i: int|
                {
                    &&& 0 <= i < entries@.len()
                    &&& name@ == entries@[i].0@
                    &&& Key::spec_from_name(entries@[i].0@) is None
                    &&& forall|j: int|
                        0 <= j < i ==> (#[trigger] Key::spec_from_name(entries@[j].0@)) is Some
                },
    {
        let mut keyed: Vec<(Key, String)> = Vec::new();
        let mut i: usize = 0;
        while i < entries.len()
            invariant
                i <= entries@.len(),
                forall|j: int| 0 <= j < i ==> (#[trigger] Key::spec_from_name(entries@[j].0@)) is Some,
                keyed@.len() == i,
                entries_view(keyed@) == named_entries_view(entries@).take(i as int),
            decreases entries@.len() - i,
        {
            let name = &entries[i].0;
            match Key::from_name(name.as_str()) {
                Some(key) => {
                    let text = entries[i].1.clone();
                    assert(text@ == entries@[i as int].1@);
                    assert(Key::spec_from_name(entries@[i as int].0@) == Some(key));
                    let ghost before = keyed@;
                    keyed.push((key, text));
                    let ghost named = named_entries_view(entries@);
                    assert forall|j: int| 0 <= j < i + 1 implies #[trigger] entries_view(keyed@)[j]
                        == named.take(i + 1)[j] by {
                        if j < i {
                            assert(keyed@[j] == before[j]);
                            assert(entries_view(before)[j] == named.take(i as int)[j]);
                        }
                    }
                    assert(entries_view(keyed@) =~= named.take(i + 1));
                    i += 1;
                },
                None => {
                    return Err(CatalogError::UnknownKey(name.clone()));
                },
            }
        }
        assert(named_entries_view(entries@).take(i as int) =~= named_entries_view(entries@));
        Ok(Catalog::new(palette_labels, keyed))
    }

    /// The translation of `key` in this catalog, if it has one.
    pub fn get(&self, key: Key) -> (r: Option<&str>)
        ensures
            match r {
                Some(s) => self@.text(key) == Some(s@),
                None => self@.text(key) is None,
            },
    {
        proof {
            use_type_invariant(self);
        }
        match &self.strings[key.index()] {
            Some(s) => Some(s.as_str()),
            None => None,
        }
    }

    /// Whether the catalog translates `key`.
    pub fn contains_key(&self, key: Key) -> (r: bool)
        ensures
            r == self@.text(key) is Some,
    {
        self.get(key).is_some()
    }

    /// Number of keys the catalog translates.
    pub fn len(&self) -> (r: usize)
        ensures
            r == count_translated(self@.strings),
    {
        proof {
            use_type_invariant(self);
        }
        let mut count: usize = 0;
        let mut i: usize = 0;
        while i < self.strings.len()
            invariant
                self.strings@.len() == KEY_COUNT,
                i <= KEY_COUNT,
                count == count_translated(self@.strings.take(i as int)),
                count <= i,
            decreases KEY_COUNT - i,
        {
            assert(self@.strings.take(i + 1).drop_last() =~= self@.strings.take(i as int));
            if self.strings[i].is_some() {
                count += 1;
            }
            i += 1;
        }
        assert(self@.strings.take(i as int) =~= self@.strings);
        count
    }

    /// Palette color labels, in palette field order.
    pub fn palette_labels(&self) -> (r: &Vec<String>)
        ensures
            strings_view(r@) == self@.palette_labels,
    {
        &self.palette_labels
    }
}

/// The catalogs of all locales, in [`Locale::ALL`] order.
pub struct Catalogs {
    catalogs: Vec<Catalog>,
}

impl View for Catalogs {
    type V = Seq<CatalogView>;

    closed spec fn view(&self) -> Seq<CatalogView> {
        Seq::new(self.catalogs@.len(), |i: int| self.catalogs@[i]@)
    }
}

impl Catalogs {
    #[verifier::type_invariant]
    spec fn one_per_locale(self) -> bool {
        self.catalogs@.len() == LOCALE_COUNT
    }

    /// Groups one catalog per locale, given in [`Locale::ALL`] order;
    /// `None` unless there are exactly as many catalogs as locales.
    pub fn new(catalogs: Vec<Catalog>) -> (r: Option<Catalogs>)
        ensures
            match r {
                Some(c) => catalogs@.len() == LOCALE_COUNT && c@ == Seq::new(
                    catalogs@.len(),
                    |i: int| catalogs@[i]@,
                ),
                None => catalogs@.len() != LOCALE_COUNT,
            },
    {
        if catalogs.len() == LOCALE_COUNT {
            Some(Catalogs { catalogs })
        } else {
            None
        }
    }
}

/// Return the catalog of `locale`.
pub fn catalog(catalogs: &Catalogs, locale: Locale) -> (r: &Catalog)
    ensures
        r@ == catalogs@[locale.spec_index() as int],
{
    proof {
        use_type_invariant(catalogs);
    }
    &catalogs.catalogs[locale.index()]
}

} // verus!
