//! Configuration documents: YAML documents read and written by `serde_yaml`,
//! and the way a configuration struct is read from one.
//!
//! A configuration is read as a struct with named string fields from the
//! document `serde_yaml` parses as a `Value`: from a mapping, each known
//! field takes the text of its value (a string's own text, a number as
//! `serde_yaml` renders it, `true` or `false`; a null, tagged or compound
//! value is refused) and unknown entries of any kind are skipped; from a
//! sequence, the fields take the items in declaration order.

use vstd::prelude::*;
use serde_yaml::Value as V;

verus! {

/// Why a configuration could not be read, written or located.
#[derive(Debug)]
pub enum ConfigError {
    /// `serde_yaml` refused the document; its error, as `Debug` renders it.
    Yaml(String),
    /// The document is neither a mapping nor a sequence.
    NotAStruct,
    /// A mapping key is itself a sequence, a mapping or a tagged value.
    InvalidKey,
    /// This field occurs twice in the mapping.
    DuplicateField(String),
    /// This field's value is not a string, a number or a boolean.
    InvalidType(String),
    /// The sequence has this many items, not one per field.
    InvalidLength(usize),
    /// The document lacks this field.
    MissingField(String),
    /// No home directory could be found.
    NoHomeDir,
    /// The home directory's path is not valid UTF-8.
    HomeDirNotUtf8,
}

/// A `ConfigError` as the contracts see it.
pub enum ConfigErrorKind {
    Yaml(Seq<char>),
    NotAStruct,
    InvalidKey,
    DuplicateField(Seq<char>),
    InvalidType(Seq<char>),
    InvalidLength(nat),
    MissingField(Seq<char>),
    NoHomeDir,
    HomeDirNotUtf8,
}

impl ConfigError {
    pub open spec fn kind(&self) -> ConfigErrorKind {
        match self {
            ConfigError::Yaml(m) => ConfigErrorKind::Yaml(m@),
            ConfigError::NotAStruct => ConfigErrorKind::NotAStruct,
            ConfigError::InvalidKey => ConfigErrorKind::InvalidKey,
            ConfigError::DuplicateField(f) => ConfigErrorKind::DuplicateField(f@),
            ConfigError::InvalidType(f) => ConfigErrorKind::InvalidType(f@),
            ConfigError::InvalidLength(n) => ConfigErrorKind::InvalidLength(*n as nat),
            ConfigError::MissingField(f) => ConfigErrorKind::MissingField(f@),
            ConfigError::NoHomeDir => ConfigErrorKind::NoHomeDir,
            ConfigError::HomeDirNotUtf8 => ConfigErrorKind::HomeDirNotUtf8,
        }
    }
}

/// A node of a YAML document, as far as reading a struct of strings needs it.
#[derive(Debug)]
pub enum YamlItem {
    Null,
    Bool(bool),
    /// A number, as `serde_yaml` renders it.
    Number(String),
    Str(String),
    /// A sequence, a mapping or a tagged value.
    Compound,
}

/// A YAML document, as far as reading a struct of strings needs it.
#[derive(Debug)]
pub enum YamlDocument {
    /// A mapping: its entries in document order.
    Mapping(Vec<(YamlItem, YamlItem)>),
    /// A sequence: its items in order.
    Sequence(Vec<YamlItem>),
    /// Anything else (a scalar or a tagged value).
    Other,
}

pub enum ItemView {
    Null,
    Bool(bool),
    Number(Seq<char>),
    Str(Seq<char>),
    Compound,
}

pub enum DocumentView {
    Mapping(Seq<(ItemView, ItemView)>),
    Sequence(Seq<ItemView>),
    Other,
}

impl View for YamlItem {
    type V = ItemView;

    open spec fn view(&self) -> ItemView {
        match self {
            YamlItem::Null => ItemView::Null,
            YamlItem::Bool(b) => ItemView::Bool(*b),
            YamlItem::Number(t) => ItemView::Number(t@),
            YamlItem::Str(s) => ItemView::Str(s@),
            YamlItem::Compound => ItemView::Compound,
        }
    }
}

impl View for YamlDocument {
    type V = DocumentView;

    open spec fn view(&self) -> DocumentView {
        match self {
            YamlDocument::Mapping(es) => DocumentView::Mapping(
                es@.map_values(|e: (YamlItem, YamlItem)| (e.0@, e.1@)),
            ),
            YamlDocument::Sequence(items) => DocumentView::Sequence(items@.map_values(|i: YamlItem| i@)),
            YamlDocument::Other => DocumentView::Other,
        }
    }
}

/// The document `serde_yaml::from_str` reads from `text` as a
/// `serde_yaml::Value`, cut down to a `DocumentView`; or the `Debug`
/// rendering of its error.
pub uninterp spec fn yaml_document(text: Seq<char>) -> Result<DocumentView, Seq<char>>;

/// The text `serde_yaml::to_string` renders for a YAML mapping holding
/// `entries` (string keys to string values, in this order); or the `Debug`
/// rendering of its error.
pub uninterp spec fn yaml_emit(entries: Seq<(Seq<char>, Seq<char>)>) -> Result<Seq<char>, Seq<char>>;

/// The entries of a document, as character sequences.
pub open spec fn entries_view(v: Seq<(String, String)>) -> Seq<(Seq<char>, Seq<char>)> {
    v.map_values(|p: (String, String)| (p.0@, p.1@))
}

/// A list of names, as character sequences.
pub open spec fn strings_view(v: Seq<String>) -> Seq<Seq<char>> {
    v.map_values(|s: String| s@)
}

/// Parses `text` with `serde_yaml::from_str` into a `serde_yaml::Value`.
///
/// Claims that the document handed back (mapping entries in document order,
/// sequence items in order, each node cut down to a `YamlItem`, numbers
/// rendered with `to_string`), or the `Debug` rendering of the error, is the
/// one named by `yaml_document`.
#[verifier::external_body]
pub(crate) fn parse_document(text: &str) -> (r: Result<YamlDocument, String>)
    ensures
        match r {
            Ok(d) => yaml_document(text@) == Ok::<_, Seq<char>>(d@),
            Err(e) => yaml_document(text@) == Err::<DocumentView, _>(e@),
        },
{
    let item = |v: &V| match v {
        V::Null => YamlItem::Null,
        V::Bool(b) => YamlItem::Bool(*b),
        V::Number(n) => YamlItem::Number(n.to_string()),
        V::String(s) => YamlItem::Str(s.clone()),
        _ => YamlItem::Compound,
    };
    match serde_yaml::from_str(text) {
        Ok(V::Mapping(m)) => Ok(YamlDocument::Mapping(m.iter().map(|(k, v)| (item(k), item(v))).collect())),
        Ok(V::Sequence(s)) => Ok(YamlDocument::Sequence(s.iter().map(item).collect())),
        Ok(_) => Ok(YamlDocument::Other),
        Err(err) => Err(format!("{:?}", err)),
    }
}

/// Renders a mapping of strings as YAML with `serde_yaml::to_string`.
///
/// Claims that the text, or the `Debug` rendering of the error, is the one
/// named by `yaml_emit` for these entries in this order.
#[verifier::external_body]
pub(crate) fn emit_string_map(entries: &Vec<(String, String)>) -> (r: Result<String, String>)
    ensures
        match r {
            Ok(t) => yaml_emit(entries_view(entries@)) == Ok::<_, Seq<char>>(t@),
            Err(e) => yaml_emit(entries_view(entries@)) == Err::<Seq<char>, _>(e@),
        },
{
    let mut mapping = serde_yaml::Mapping::new();
    for (key, value) in entries {
        mapping.insert(serde_yaml::Value::String(key.clone()), serde_yaml::Value::String(value.clone()));
    }
    serde_yaml::to_string(&mapping).map_err(|err| format!("{:?}", err))
}

/// The text a string field takes from a node: a string's own text, a
/// number's rendering, `true` or `false`; nothing from a null or a compound node.
pub open spec fn item_text(v: ItemView) -> Option<Seq<char>> {
    match v {
        ItemView::Str(s) => Some(s),
        ItemView::Number(t) => Some(t),
        ItemView::Bool(b) => Some(if b { "true"@ } else { "false"@ }),
        _ => None,
    }
}

/// The first index of `name` in `fields`.
pub open spec fn field_index(fields: Seq<Seq<char>>, name: Seq<char>) -> Option<int>
    decreases fields.len(),
{
    if fields.len() == 0 {
        None
    } else if fields[0] == name {
        Some(0)
    } else {
        match field_index(fields.drop_first(), name) {
            Some(i) => Some(i + 1),
            None => None,
        }
    }
}

pub proof fn lemma_field_index(fields: Seq<Seq<char>>, name: Seq<char>)
    ensures
        field_index(fields, name) matches Some(i) ==> 0 <= i < fields.len() && fields[i] == name && forall|j: int|
            0 <= j < i ==> fields[j] != name,
        field_index(fields, name) is None ==> forall|j: int| 0 <= j < fields.len() ==> fields[j] != name,
    decreases fields.len(),
{
    if fields.len() > 0 && fields[0] != name {
        let rest = fields.drop_first();
        lemma_field_index(rest, name);
        assert forall|j: int| 0 < j < fields.len() implies fields[j] == rest[j - 1] by {}
    }
}

/// What one mapping entry does to the values found so far.
pub open spec fn entry_effect(
    key: ItemView,
    value: ItemView,
    fields: Seq<Seq<char>>,
    found: Seq<Option<Seq<char>>>,
) -> Result<Seq<Option<Seq<char>>>, ConfigErrorKind> {
    match key {
        ItemView::Compound => Err(ConfigErrorKind::InvalidKey),
        ItemView::Str(name) => match field_index(fields, name) {
            None => Ok(found),
            Some(i) => if found[i] is Some {
                Err(ConfigErrorKind::DuplicateField(name))
            } else {
                match item_text(value) {
                    Some(t) => Ok(found.update(i, Some(t))),
                    None => Err(ConfigErrorKind::InvalidType(name)),
                }
            },
        },
        _ => Ok(found),
    }
}

/// The values found after reading `entries` in order, or the first error.
#[verifier::opaque]
pub open spec fn read_entries(
    entries: Seq<(ItemView, ItemView)>,
    fields: Seq<Seq<char>>,
    found: Seq<Option<Seq<char>>>,
) -> Result<Seq<Option<Seq<char>>>, ConfigErrorKind>
    decreases entries.len(),
{
    if entries.len() == 0 {
        Ok(found)
    } else {
        match entry_effect(entries[0].0, entries[0].1, fields, found) {
            Err(e) => Err(e),
            Ok(found2) => read_entries(entries.drop_first(), fields, found2),
        }
    }
}

/// Nothing found yet, for `n` fields.
pub open spec fn nothing_found(n: nat) -> Seq<Option<Seq<char>>> {
    Seq::new(n, |i: int| None::<Seq<char>>)
}

/// The field values, or the first field (in declaration order) without one.
pub open spec fn finish(found: Seq<Option<Seq<char>>>, fields: Seq<Seq<char>>) -> Result<Seq<Seq<char>>, ConfigErrorKind> {
    if exists|i: int| 0 <= i < found.len() && found[i] is None {
        let i = choose|i: int| 0 <= i < found.len() && found[i] is None && forall|j: int| 0 <= j < i ==> found[j] is Some;
        Err(ConfigErrorKind::MissingField(fields[i]))
    } else {
        Ok(found.map_values(|o: Option<Seq<char>>| o->Some_0))
    }
}

/// The fields read from a sequence: one item per field, in order.
pub open spec fn read_sequence(items: Seq<ItemView>, fields: Seq<Seq<char>>) -> Result<Seq<Seq<char>>, ConfigErrorKind> {
    let m = if items.len() < fields.len() { items.len() as int } else { fields.len() as int };
    if exists|i: int| 0 <= i < m && item_text(items[i]) is None {
        let i = choose|i: int| 0 <= i < m && item_text(items[i]) is None && forall|j: int| 0 <= j < i ==> item_text(items[j]) is Some;
        Err(ConfigErrorKind::InvalidType(fields[i]))
    } else if items.len() != fields.len() {
        Err(ConfigErrorKind::InvalidLength(items.len()))
    } else {
        Ok(items.map_values(|v: ItemView| item_text(v)->Some_0))
    }
}

/// The values of the string fields `fields` read from `doc`, or why they
/// cannot be.
pub open spec fn struct_from_document(doc: DocumentView, fields: Seq<Seq<char>>) -> Result<Seq<Seq<char>>, ConfigErrorKind> {
    match doc {
        DocumentView::Mapping(entries) => match read_entries(entries, fields, nothing_found(fields.len())) {
            Err(e) => Err(e),
            Ok(found) => finish(found, fields),
        },
        DocumentView::Sequence(items) => read_sequence(items, fields),
        DocumentView::Other => Err(ConfigErrorKind::NotAStruct),
    }
}

/// The result of reading a struct, as the contracts see it.
pub open spec fn values_result_view(r: Result<Vec<String>, ConfigError>) -> Result<Seq<Seq<char>>, ConfigErrorKind> {
    match r {
        Ok(v) => Ok(strings_view(v@)),
        Err(e) => Err(e.kind()),
    }
}

pub open spec fn opt_view(o: Option<String>) -> Option<Seq<char>> {
    match o {
        Some(s) => Some(s@),
        None => None,
    }
}

/// The text a string field takes from `item`.
pub fn text_of(item: &YamlItem) -> (r: Option<String>)
    ensures
        opt_view(r) == item_text(item@),
{
    match item {
        YamlItem::Str(s) => Some(s.clone()),
        YamlItem::Number(t) => Some(t.clone()),
        YamlItem::Bool(b) => {
            proof {
                reveal_strlit("true");
                reveal_strlit("false");
            }
            if *b {
                Some("true".to_owned())
            } else {
                Some("false".to_owned())
            }
        },
        _ => None,
    }
}

/// The first index of `name` in `fields`.
pub fn index_of(fields: &Vec<String>, name: &String) -> (r: Option<usize>)
    ensures
        match r {
            Some(i) => field_index(strings_view(fields@), name@) == Some(i as int) && i < fields@.len(),
            None => field_index(strings_view(fields@), name@) is None,
        },
{
    let ghost fv = strings_view(fields@);
    proof {
        lemma_field_index(fv, name@);
    }
    let mut i: usize = 0;
    while i < fields.len()
        invariant
            0 <= i <= fields@.len(),
            fv == strings_view(fields@),
            forall|j: int| 0 <= j < i ==> fv[j] != name@,
            field_index(fv, name@) matches Some(c) ==> 0 <= c < fv.len() && fv[c] == name@ && forall|j: int|
                0 <= j < c ==> fv[j] != name@,
            field_index(fv, name@) is None ==> forall|j: int| 0 <= j < fv.len() ==> fv[j] != name@,
        decreases fields@.len() - i,
    {
        if fields[i] == *name {
            proof {
                assert(fv[i as int] == fields@[i as int]@);
                assert(fv[i as int] == name@);
                let c = field_index(fv, name@)->Some_0;
                if c < i {
                    assert(fv[c] != name@);
                } else if c > i {
                    assert(fv[i as int] != name@);
                }
            }
            return Some(i);
        }
        proof {
            assert(fv[i as int] == fields@[i as int]@);
        }
        i = i + 1;
    }
    proof {
        if field_index(fv, name@) is Some {
            let c = field_index(fv, name@)->Some_0;
            assert(fv[c] != name@);
        }
    }
    None
}

/// The values of the string fields `fields` read from `doc`.
pub fn read_struct(doc: &YamlDocument, fields: &Vec<String>) -> (r: Result<Vec<String>, ConfigError>)
    ensures
        values_result_view(r) == struct_from_document(doc@, strings_view(fields@)),
        r matches Ok(v) ==> v@.len() == fields@.len(),
{
    match doc {
        YamlDocument::Mapping(entries) => {
            assert(doc@ == DocumentView::Mapping(document_entries(entries@)));
            read_mapping(entries, fields)
        },
        YamlDocument::Sequence(items) => {
            assert(doc@ == DocumentView::Sequence(document_items(items@)));
            read_items(items, fields)
        },
        YamlDocument::Other => Err(ConfigError::NotAStruct),
    }
}

pub open spec fn found_view(v: Seq<Option<String>>) -> Seq<Option<Seq<char>>> {
    v.map_values(|o: Option<String>| opt_view(o))
}

pub open spec fn document_entries(v: Seq<(YamlItem, YamlItem)>) -> Seq<(ItemView, ItemView)> {
    v.map_values(|e: (YamlItem, YamlItem)| (e.0@, e.1@))
}

pub open spec fn document_items(v: Seq<YamlItem>) -> Seq<ItemView> {
    v.map_values(|i: YamlItem| i@)
}

proof fn lemma_read_entries_step(
    all: Seq<(ItemView, ItemView)>,
    i: int,
    fields: Seq<Seq<char>>,
    found: Seq<Option<Seq<char>>>,
)
    requires
        0 <= i < all.len(),
    ensures
        read_entries(all.subrange(i, all.len() as int), fields, found) == match entry_effect(
            all[i].0,
            all[i].1,
            fields,
            found,
        ) {
            Err(e) => Err(e),
            Ok(found2) => read_entries(all.subrange(i + 1, all.len() as int), fields, found2),
        },
{
    reveal(read_entries);
    let rest = all.subrange(i, all.len() as int);
    assert(rest[0] == all[i]);
    assert(rest.drop_first() =~= all.subrange(i + 1, all.len() as int));
}

proof fn lemma_read_no_entries(fields: Seq<Seq<char>>, found: Seq<Option<Seq<char>>>)
    ensures
        read_entries(Seq::empty(), fields, found) == Ok::<_, ConfigErrorKind>(found),
{
    reveal(read_entries);
}

/// Applies one mapping entry to the values found so far.
fn apply_entry(key: &YamlItem, value: &YamlItem, fields: &Vec<String>, found: &mut Vec<Option<String>>) -> (r: Result<
    (),
    ConfigError,
>)
    requires
        old(found)@.len() == fields@.len(),
    ensures
        final(found)@.len() == fields@.len(),
        match entry_effect(key@, value@, strings_view(fields@), found_view(old(found)@)) {
            Ok(f2) => r is Ok && found_view(final(found)@) == f2,
            Err(e) => r matches Err(err) && err.kind() == e,
        },
{
    match key {
        YamlItem::Compound => Err(ConfigError::InvalidKey),
        YamlItem::Str(name) => match index_of(fields, name) {
            None => Ok(()),
            Some(f) => {
                assert(found_view(found@)[f as int] == opt_view(found@[f as int]));
                if found[f].is_some() {
                    return Err(ConfigError::DuplicateField(name.clone()));
                }
                match text_of(value) {
                    None => Err(ConfigError::InvalidType(name.clone())),
                    Some(t) => {
                        let ghost before = found_view(found@);
                        found.set(f, Some(t));
                        proof {
                            assert(found_view(found@) =~= before.update(f as int, item_text(value@)));
                        }
                        Ok(())
                    },
                }
            },
        },
        _ => Ok(()),
    }
}

proof fn lemma_finish_missing(found: Seq<Option<Seq<char>>>, fields: Seq<Seq<char>>, j: int)
    requires
        0 <= j < found.len(),
        found[j] is None,
        forall|m: int| 0 <= m < j ==> found[m] is Some,
    ensures
        finish(found, fields) == Err::<Seq<Seq<char>>, _>(ConfigErrorKind::MissingField(fields[j])),
{
    let c = choose|c: int| 0 <= c < found.len() && found[c] is None && forall|m: int| 0 <= m < c ==> found[m] is Some;
    if c < j {
        assert(found[c] is Some);
    } else if c > j {
        assert(found[j] is Some);
    }
}

proof fn lemma_sequence_invalid(items: Seq<ItemView>, fields: Seq<Seq<char>>, i: int)
    requires
        0 <= i < items.len(),
        i < fields.len(),
        item_text(items[i]) is None,
        forall|j: int| 0 <= j < i ==> item_text(items[j]) is Some,
    ensures
        read_sequence(items, fields) == Err::<Seq<Seq<char>>, _>(ConfigErrorKind::InvalidType(fields[i])),
{
    let m = if items.len() < fields.len() { items.len() as int } else { fields.len() as int };
    let c = choose|c: int| 0 <= c < m && item_text(items[c]) is None && forall|j: int| 0 <= j < c ==> item_text(items[j]) is Some;
    if c < i {
        assert(item_text(items[c]) is Some);
    } else if c > i {
        assert(item_text(items[i]) is Some);
    }
}

fn read_mapping(entries: &Vec<(YamlItem, YamlItem)>, fields: &Vec<String>) -> (r: Result<Vec<String>, ConfigError>)
    ensures
        values_result_view(r) == match read_entries(
            document_entries(entries@),
            strings_view(fields@),
            nothing_found(fields@.len()),
        ) {
            Err(e) => Err(e),
            Ok(found) => finish(found, strings_view(fields@)),
        },
        r matches Ok(v) ==> v@.len() == fields@.len(),
{
    let ghost all = document_entries(entries@);
    let ghost fv = strings_view(fields@);
    let mut found: Vec<Option<String>> = Vec::new();
    let mut k: usize = 0;
    while k < fields.len()
        invariant
            0 <= k <= fields@.len(),
            found@.len() == k,
            forall|j: int| 0 <= j < k ==> found@[j] is None,
        decreases fields@.len() - k,
    {
        found.push(None);
        k = k + 1;
    }
    assert(found_view(found@) =~= nothing_found(fields@.len()));
    let mut i: usize = 0;
    assert(all.subrange(0, all.len() as int) =~= all);
    while i < entries.len()
        invariant
            0 <= i <= entries@.len(),
            all == document_entries(entries@),
            fv == strings_view(fields@),
            found@.len() == fields@.len(),
            read_entries(all, fv, nothing_found(fields@.len())) == read_entries(
                all.subrange(i as int, all.len() as int),
                fv,
                found_view(found@),
            ),
        decreases entries@.len() - i,
    {
        let ghost fview = found_view(found@);
        proof {
            lemma_read_entries_step(all, i as int, fv, fview);
        }
        assert(all[i as int] == (entries@[i as int].0@, entries@[i as int].1@));
        match apply_entry(&entries[i].0, &entries[i].1, fields, &mut found) {
            Err(e) => {
                return Err(e);
            },
            Ok(()) => {},
        }
        i = i + 1;
    }
    let ghost fview = found_view(found@);
    proof {
        assert(all.subrange(entries@.len() as int, all.len() as int) =~= Seq::<(ItemView, ItemView)>::empty());
        lemma_read_no_entries(fv, fview);
    }
    let mut out: Vec<String> = Vec::new();
    let mut j: usize = 0;
    while j < found.len()
        invariant
            0 <= j <= found@.len(),
            found@.len() == fields@.len(),
            fview == found_view(found@),
            fv == strings_view(fields@),
            all == document_entries(entries@),
            read_entries(all, fv, nothing_found(fields@.len())) == Ok::<_, ConfigErrorKind>(fview),
            forall|m: int| 0 <= m < j ==> fview[m] is Some,
            out@.len() == j,
            forall|m: int| 0 <= m < j ==> out@[m]@ == fview[m]->Some_0,
        decreases found@.len() - j,
    {
        assert(fview[j as int] == opt_view(found@[j as int]));
        match &found[j] {
            Some(v) => {
                out.push(v.clone());
            },
            None => {
                proof {
                    lemma_finish_missing(fview, fv, j as int);
                }
                return Err(ConfigError::MissingField(fields[j].clone()));
            },
        }
        j = j + 1;
    }
    proof {
        assert(!(exists|m: int| 0 <= m < fview.len() && fview[m] is None));
        assert(strings_view(out@) =~= fview.map_values(|o: Option<Seq<char>>| o->Some_0));
    }
    Ok(out)
}

fn read_items(items: &Vec<YamlItem>, fields: &Vec<String>) -> (r: Result<Vec<String>, ConfigError>)
    ensures
        values_result_view(r) == read_sequence(document_items(items@), strings_view(fields@)),
        r matches Ok(v) ==> v@.len() == fields@.len(),
{
    let ghost iv = document_items(items@);
    let ghost fv = strings_view(fields@);
    let m = if items.len() < fields.len() { items.len() } else { fields.len() };
    let mut out: Vec<String> = Vec::new();
    let mut i: usize = 0;
    while i < m
        invariant
            0 <= i <= m,
            m <= items@.len(),
            m <= fields@.len(),
            m == items@.len() || m == fields@.len(),
            iv == document_items(items@),
            fv == strings_view(fields@),
            out@.len() == i,
            forall|j: int| 0 <= j < i ==> item_text(#[trigger] iv[j]) is Some,
            forall|j: int| 0 <= j < i ==> out@[j]@ == item_text(#[trigger] iv[j])->Some_0,
        decreases m - i,
    {
        assert(iv[i as int] == items@[i as int]@);
        match text_of(&items[i]) {
            Some(t) => {
                out.push(t);
            },
            None => {
                proof {
                    lemma_sequence_invalid(iv, fv, i as int);
                }
                return Err(ConfigError::InvalidType(fields[i].clone()));
            },
        }
        i = i + 1;
    }
    proof {
        let mm = if iv.len() < fv.len() { iv.len() as int } else { fv.len() as int };
        assert(mm == m);
        assert(!(exists|c: int| 0 <= c < mm && item_text(iv[c]) is None));
    }
    if items.len() != fields.len() {
        return Err(ConfigError::InvalidLength(items.len()));
    }
    proof {
        assert(strings_view(out@) =~= iv.map_values(|v: ItemView| item_text(v)->Some_0));
    }
    Ok(out)
}

/// The entries of a mapping of strings, as a document's entries.
pub open spec fn string_entries(keys: Seq<Seq<char>>, values: Seq<Seq<char>>) -> Seq<(ItemView, ItemView)> {
    Seq::new(keys.len(), |i: int| (ItemView::Str(keys[i]), ItemView::Str(values[i])))
}

/// Where no name occurs twice, each name is found at its own index.
proof fn lemma_distinct_field_index(fields: Seq<Seq<char>>, k: int)
    requires
        0 <= k < fields.len(),
        forall|i: int, j: int| 0 <= i < j < fields.len() ==> fields[i] != fields[j],
    ensures
        field_index(fields, fields[k]) == Some(k),
{
    lemma_field_index(fields, fields[k]);
    if field_index(fields, fields[k]) is None {
        assert(fields[k] != fields[k]);
    } else {
        let c = field_index(fields, fields[k])->Some_0;
        if c < k {
            assert(fields[c] != fields[k]);
        } else if c > k {
            assert(fields[k] != fields[k]);
        }
    }
}

proof fn lemma_read_string_entries(keys: Seq<Seq<char>>, values: Seq<Seq<char>>, k: int)
    requires
        keys.len() == values.len(),
        0 <= k <= keys.len(),
        forall|i: int, j: int| 0 <= i < j < keys.len() ==> keys[i] != keys[j],
    ensures
        read_entries(
            string_entries(keys, values).subrange(k, keys.len() as int),
            keys,
            Seq::new(keys.len(), |i: int| if i < k { Some(values[i]) } else { None }),
        ) == Ok::<_, ConfigErrorKind>(Seq::new(keys.len(), |i: int| Some(values[i]))),
    decreases keys.len() - k,
{
    let n = keys.len() as int;
    reveal(read_entries);
    let es = string_entries(keys, values).subrange(k, n);
    let found = Seq::new(keys.len(), |i: int| if i < k { Some(values[i]) } else { None });
    if k == n {
        assert(found =~= Seq::new(keys.len(), |i: int| Some(values[i])));
    } else {
        assert(es[0] == (ItemView::Str(keys[k]), ItemView::Str(values[k])));
        lemma_distinct_field_index(keys, k);
        let next = Seq::new(keys.len(), |i: int| if i < k + 1 { Some(values[i]) } else { None });
        assert(found.update(k, Some(values[k])) =~= next);
        assert(es.drop_first() =~= string_entries(keys, values).subrange(k + 1, n));
        lemma_read_string_entries(keys, values, k + 1);
    }
}

/// A mapping that holds one string entry per field, in the fields' order,
/// reads back as those strings.
pub proof fn read_back_string_entries(fields: Seq<Seq<char>>, values: Seq<Seq<char>>)
    requires
        fields.len() == values.len(),
        forall|i: int, j: int| 0 <= i < j < fields.len() ==> fields[i] != fields[j],
    ensures
        struct_from_document(DocumentView::Mapping(string_entries(fields, values)), fields) == Ok::<
            _,
            ConfigErrorKind,
        >(values),
{
    lemma_read_string_entries(fields, values, 0);
    assert(string_entries(fields, values).subrange(0, fields.len() as int) =~= string_entries(fields, values));
    assert(Seq::new(fields.len(), |i: int| if i < 0 { Some(values[i]) } else { None }) =~= nothing_found(
        fields.len(),
    ));
    let found = Seq::new(fields.len(), |i: int| Some(values[i]));
    assert(!(exists|i: int| 0 <= i < found.len() && found[i] is None));
    assert(found.map_values(|o: Option<Seq<char>>| o->Some_0) =~= values);
}

/// An entry a struct with string fields `fields` skips: its key is a
/// scalar other than a string, or a string that names none of the fields.
pub open spec fn skipped_entry(e: (ItemView, ItemView), fields: Seq<Seq<char>>) -> bool {
    match e.0 {
        ItemView::Str(k) => !fields.contains(k),
        ItemView::Compound => false,
        _ => true,
    }
}

proof fn lemma_read_entries_concat(
    a: Seq<(ItemView, ItemView)>,
    b: Seq<(ItemView, ItemView)>,
    fields: Seq<Seq<char>>,
    found: Seq<Option<Seq<char>>>,
)
    ensures
        read_entries(a + b, fields, found) == match read_entries(a, fields, found) {
            Err(e) => Err(e),
            Ok(f2) => read_entries(b, fields, f2),
        },
    decreases a.len(),
{
    reveal(read_entries);
    if a.len() == 0 {
        assert(a + b =~= b);
    } else {
        assert((a + b)[0] == a[0]);
        assert((a + b).drop_first() =~= a.drop_first() + b);
        match entry_effect(a[0].0, a[0].1, fields, found) {
            Ok(f2) => lemma_read_entries_concat(a.drop_first(), b, fields, f2),
            Err(_) => {},
        }
    }
}

proof fn lemma_skipped_entries(extra: Seq<(ItemView, ItemView)>, fields: Seq<Seq<char>>, found: Seq<Option<Seq<char>>>)
    requires
        forall|i: int| 0 <= i < extra.len() ==> skipped_entry(#[trigger] extra[i], fields),
    ensures
        read_entries(extra, fields, found) == Ok::<_, ConfigErrorKind>(found),
    decreases extra.len(),
{
    reveal(read_entries);
    if extra.len() > 0 {
        assert(skipped_entry(extra[0], fields));
        if let ItemView::Str(k) = extra[0].0 {
            lemma_field_index(fields, k);
            if field_index(fields, k) is Some {
                let c = field_index(fields, k)->Some_0;
                assert(fields.contains(k)) by {
                    assert(fields[c] == k);
                }
            }
        }
        let rest = extra.drop_first();
        assert forall|i: int| 0 <= i < rest.len() implies skipped_entry(#[trigger] rest[i], fields) by {
            assert(rest[i] == extra[i + 1]);
        }
        lemma_skipped_entries(rest, fields, found);
    }
}

/// Entries that name no field leave what is read from a mapping unchanged,
/// wherever they stand and whatever their values hold.
pub proof fn extra_entries_are_skipped(
    before: Seq<(ItemView, ItemView)>,
    extra: Seq<(ItemView, ItemView)>,
    after: Seq<(ItemView, ItemView)>,
    fields: Seq<Seq<char>>,
)
    requires
        forall|i: int| 0 <= i < extra.len() ==> skipped_entry(#[trigger] extra[i], fields),
    ensures
        struct_from_document(DocumentView::Mapping(before + extra + after), fields) == struct_from_document(
            DocumentView::Mapping(before + after),
            fields,
        ),
{
    let none = nothing_found(fields.len());
    lemma_read_entries_concat(before + extra, after, fields, none);
    lemma_read_entries_concat(before, extra, fields, none);
    lemma_read_entries_concat(before, after, fields, none);
    match read_entries(before, fields, none) {
        Ok(f2) => lemma_skipped_entries(extra, fields, f2),
        Err(_) => {},
    }
}

/// `order` lists each of `0 .. n` exactly once.
pub open spec fn is_permutation(order: Seq<int>, n: nat) -> bool {
    &&& order.len() == n
    &&& forall|j: int| 0 <= j < n ==> 0 <= #[trigger] order[j] < n
    &&& forall|j: int, k: int| 0 <= j < k < n ==> order[j] != order[k]
    &&& forall|i: int| 0 <= i < n ==> #[trigger] placed_before(order, n as int, i)
}

/// The entries `es` in the order `order` lists their indices.
pub open spec fn reordered(es: Seq<(ItemView, ItemView)>, order: Seq<int>) -> Seq<(ItemView, ItemView)> {
    Seq::new(order.len(), |j: int| es[order[j]])
}

/// The index `i` comes among the first `k` entries of `order`.
pub open spec fn placed_before(order: Seq<int>, k: int, i: int) -> bool {
    exists|j: int| 0 <= j < k && #[trigger] order[j] == i
}

/// The values found once the first `k` entries of the order `order` are read.
spec fn found_in_order(values: Seq<Seq<char>>, order: Seq<int>, k: int) -> Seq<Option<Seq<char>>> {
    Seq::new(values.len(), |i: int| if placed_before(order, k, i) { Some(values[i]) } else { None })
}

proof fn lemma_read_reordered_entries(fields: Seq<Seq<char>>, values: Seq<Seq<char>>, order: Seq<int>, k: int)
    requires
        fields.len() == values.len(),
        forall|i: int, j: int| 0 <= i < j < fields.len() ==> fields[i] != fields[j],
        is_permutation(order, fields.len()),
        0 <= k <= fields.len(),
    ensures
        read_entries(
            reordered(string_entries(fields, values), order).subrange(k, fields.len() as int),
            fields,
            found_in_order(values, order, k),
        ) == Ok::<_, ConfigErrorKind>(Seq::new(fields.len(), |i: int| Some(values[i]))),
    decreases fields.len() - k,
{
    let n = fields.len() as int;
    reveal(read_entries);
    let all = reordered(string_entries(fields, values), order);
    let es = all.subrange(k, n);
    let found = found_in_order(values, order, k);
    if k == n {
        assert(found =~= Seq::new(fields.len(), |i: int| Some(values[i])));
    } else {
        let p = order[k];
        assert(0 <= p < n);
        assert(es[0] == (ItemView::Str(fields[p]), ItemView::Str(values[p])));
        lemma_distinct_field_index(fields, p);
        assert(!placed_before(order, k, p)) by {
            if placed_before(order, k, p) {
                let j = choose|j: int| 0 <= j < k && #[trigger] order[j] == p;
                assert(order[j] != order[k]);
            }
        }
        let next = found_in_order(values, order, k + 1);
        assert forall|i: int| 0 <= i < n implies #[trigger] found.update(p, Some(values[p]))[i] == next[i] by {
            if i == p {
                assert(order[k] == p);
                assert(placed_before(order, k + 1, p));
            } else {
                if placed_before(order, k + 1, i) {
                    let j = choose|j: int| 0 <= j < k + 1 && #[trigger] order[j] == i;
                    assert(j != k);
                    assert(placed_before(order, k, i));
                }
                if placed_before(order, k, i) {
                    let j = choose|j: int| 0 <= j < k && #[trigger] order[j] == i;
                    assert(placed_before(order, k + 1, i));
                }
            }
        }
        assert(found.update(p, Some(values[p])) =~= next);
        assert(es.drop_first() =~= all.subrange(k + 1, n));
        lemma_read_reordered_entries(fields, values, order, k + 1);
    }
}

/// Reading a struct from a mapping does not depend on the order of its
/// entries: a mapping holding one string entry per field, in any order,
/// reads back as those strings in the fields' order.
pub proof fn fields_read_in_any_order(fields: Seq<Seq<char>>, values: Seq<Seq<char>>, order: Seq<int>)
    requires
        fields.len() == values.len(),
        forall|i: int, j: int| 0 <= i < j < fields.len() ==> fields[i] != fields[j],
        is_permutation(order, fields.len()),
    ensures
        struct_from_document(DocumentView::Mapping(reordered(string_entries(fields, values), order)), fields)
            == Ok::<_, ConfigErrorKind>(values),
{
    let n = fields.len() as int;
    let all = reordered(string_entries(fields, values), order);
    lemma_read_reordered_entries(fields, values, order, 0);
    assert(all.subrange(0, n) =~= all);
    assert(found_in_order(values, order, 0) =~= nothing_found(fields.len()));
    let found = Seq::new(fields.len(), |i: int| Some(values[i]));
    assert(!(exists|i: int| 0 <= i < found.len() && found[i] is None));
    assert(found.map_values(|o: Option<Seq<char>>| o->Some_0) =~= values);
}

} // verus!
