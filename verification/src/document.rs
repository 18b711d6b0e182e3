//! Document ingestion: parsing descriptor documents and extracting each
//! entry's fields into a `Descriptor`.
//!
//! A parsed document is an opaque `serde_json::Value`; what the logic
//! reads of one is named by the uninterpreted functions below (whether it
//! is an object with a key, a string, a boolean, an array, and what it
//! holds there), and every trusted accessor speaks of those names, so the
//! extraction functions can promise exactly which entries yield a
//! descriptor and with which fields.
use vstd::prelude::*;
use crate::descriptor::Descriptor;
use crate::descriptor::DescriptorModel;
use crate::descriptor::build_descriptor;
use crate::descriptor::default_help;
use crate::descriptor::default_name;

verus! {

#[verifier::external_type_specification]
#[verifier::external_body]
pub struct ExValue(serde_json::Value);

/// Whether a text parses as a JSON document.
pub uninterp spec fn json_wellformed(text: Seq<char>) -> bool;

/// The document a well-formed text denotes.
pub uninterp spec fn json_of(text: Seq<char>) -> serde_json::Value;

/// The parser's diagnostic for a text that does not parse.
pub uninterp spec fn parse_error_text(text: Seq<char>) -> Seq<char>;

/// Whether a value is an object that holds this key.
pub uninterp spec fn has_key(v: serde_json::Value, key: Seq<char>) -> bool;

/// The value an object holds under this key.
pub uninterp spec fn key_value(v: serde_json::Value, key: Seq<char>) -> serde_json::Value;

/// Whether a value is a string.
pub uninterp spec fn is_string(v: serde_json::Value) -> bool;

/// The characters of a string value.
pub uninterp spec fn string_content(v: serde_json::Value) -> Seq<char>;

/// Whether a value is a boolean.
pub uninterp spec fn is_bool(v: serde_json::Value) -> bool;

/// The truth value of a boolean value.
pub uninterp spec fn bool_content(v: serde_json::Value) -> bool;

/// Whether a value is an array.
pub uninterp spec fn is_array(v: serde_json::Value) -> bool;

/// The elements of an array value.
pub uninterp spec fn array_content(v: serde_json::Value) -> Seq<serde_json::Value>;

/// A document that could not be parsed; carries the parser's diagnostic
/// text. Per the fail-fast policy, one of these aborts the whole run.
#[derive(Debug)]
pub struct ParseError {
    pub message: String,
}

/// Relies on serde_json::from_str: parsing succeeds exactly on well-formed
/// text and is a function of the text alone, as is the diagnostic (built
/// here with serde_json::Error's Display implementation) when it fails.
#[verifier::external_body]
fn parse_value(text: &str) -> (r: Result<serde_json::Value, String>)
    ensures
        r is Ok <==> json_wellformed(text@),
        r is Ok ==> r->Ok_0 == json_of(text@),
        r is Err ==> r->Err_0@ == parse_error_text(text@),
{
    match serde_json::from_str::<serde_json::Value>(text) {
        Ok(v) => Ok(v),
        Err(e) => Err(format!("{}", e)),
    }
}

/// Relies on serde_json::Value::get: `Some` exactly when the value is an
/// object holding the key, and then the value held there.
#[verifier::external_body]
fn value_get<'a>(v: &'a serde_json::Value, key: &str) -> (r: Option<&'a serde_json::Value>)
    ensures
        r is Some <==> has_key(*v, key@),
        r is Some ==> *r->0 == key_value(*v, key@),
{
    v.get(key)
}

/// Relies on serde_json::Value::as_str: `Some` exactly when the value is a
/// string, and then its characters.
#[verifier::external_body]
fn value_as_str(v: &serde_json::Value) -> (r: Option<&str>)
    ensures
        r is Some <==> is_string(*v),
        r is Some ==> r->0@ == string_content(*v),
{
    v.as_str()
}

/// Relies on serde_json::Value::as_bool: `Some` exactly when the value is
/// a boolean, and then its truth value.
#[verifier::external_body]
fn value_as_bool(v: &serde_json::Value) -> (r: Option<bool>)
    ensures
        r is Some <==> is_bool(*v),
        r is Some ==> r->0 == bool_content(*v),
{
    v.as_bool()
}

/// Relies on serde_json::Value::as_array: `Some` exactly when the value is
/// an array, and then its elements.
#[verifier::external_body]
fn value_as_array(v: &serde_json::Value) -> (r: Option<&Vec<serde_json::Value>>)
    ensures
        r is Some <==> is_array(*v),
        r is Some ==> r->0@ == array_content(*v),
{
    v.as_array()
}

/// Parse every document text, in order; the first failure aborts the whole
/// batch with that document's error.
pub fn parse_documents(texts: &Vec<String>) -> (r: Result<Vec<serde_json::Value>, ParseError>)
    ensures
        r is Ok <==> (forall|i: int|
            0 <= i < texts@.len() ==> #[trigger] json_wellformed(texts@[i]@)),
        r is Ok ==> r->Ok_0@.len() == texts@.len(),
        r is Ok ==> forall|i: int|
            0 <= i < texts@.len() ==> #[trigger] r->Ok_0@[i] == json_of(texts@[i]@),
        r is Err ==> exists|i: int|
            {
                &&& 0 <= i < texts@.len()
                &&& !(#[trigger] json_wellformed(texts@[i]@))
                &&& forall|j: int| 0 <= j < i ==> #[trigger] json_wellformed(texts@[j]@)
                &&& r->Err_0.message@ == parse_error_text(texts@[i]@)
            },
{
    let mut parsed: Vec<serde_json::Value> = Vec::new();
    let mut i: usize = 0;
    while i < texts.len()
        invariant
            i <= texts@.len(),
            parsed@.len() == i,
            forall|j: int| 0 <= j < i ==> #[trigger] json_wellformed(texts@[j]@),
            forall|j: int| 0 <= j < i ==> #[trigger] parsed@[j] == json_of(texts@[j]@),
        decreases texts@.len() - i,
    {
        match parse_value(texts[i].as_str()) {
            Ok(v) => parsed.push(v),
            Err(message) => {
                return Err(ParseError { message });
            },
        }
        i += 1;
    }
    Ok(parsed)
}

/// The string an entry holds under a key, or `None` when the entry lacks
/// the key or holds something other than a string there.
pub open spec fn entry_string(entry: serde_json::Value, key: Seq<char>) -> Option<Seq<char>> {
    if has_key(entry, key) && is_string(key_value(entry, key)) {
        Some(string_content(key_value(entry, key)))
    } else {
        None
    }
}

/// Whether an entry declares a usable `path`.
pub open spec fn entry_has_path(entry: serde_json::Value) -> bool {
    entry_string(entry, "path"@) is Some
}

/// Whether an entry declares itself movable: a `movable` key holding the
/// boolean true. A missing or differently typed key counts as not movable.
pub open spec fn entry_movable(entry: serde_json::Value) -> bool {
    has_key(entry, "movable"@) && is_bool(key_value(entry, "movable"@)) && bool_content(
        key_value(entry, "movable"@),
    )
}

/// The descriptor an entry with a usable `path` yields.
pub open spec fn entry_model(entry: serde_json::Value) -> DescriptorModel {
    DescriptorModel {
        name: if entry_string(entry, "name"@) is Some {
            entry_string(entry, "name"@)->0
        } else {
            default_name()
        },
        raw_path: entry_string(entry, "path"@)->0,
        movable: entry_movable(entry),
        help: if entry_string(entry, "help"@) is Some {
            entry_string(entry, "help"@)->0
        } else {
            default_help()
        },
    }
}

/// Look one key up in an entry and keep it only when it is a string.
fn entry_string_field<'a>(entry: &'a serde_json::Value, key: &str) -> (r: Option<&'a str>)
    ensures
        r is Some <==> entry_string(*entry, key@) is Some,
        r is Some ==> r->0@ == entry_string(*entry, key@)->0,
{
    match value_get(entry, key) {
        None => None,
        Some(v) => value_as_str(v),
    }
}

/// The descriptor declared by one entry of a document's `files` array, or
/// `None` when the entry lacks a usable `path`. A missing or non-string
/// `name` or `help` falls back to its default; a missing or non-boolean
/// `movable` counts as not movable.
pub fn descriptor_from_entry(entry: &serde_json::Value) -> (r: Option<Descriptor>)
    ensures
        r is Some <==> entry_has_path(*entry),
        r is Some ==> r->0@ == entry_model(*entry),
{
    let path: Option<String> = match entry_string_field(entry, "path") {
        None => None,
        Some(p) => Some(p.to_owned()),
    };
    let name: Option<String> = match entry_string_field(entry, "name") {
        None => None,
        Some(n) => Some(n.to_owned()),
    };
    let help: Option<String> = match entry_string_field(entry, "help") {
        None => None,
        Some(h) => Some(h.to_owned()),
    };
    let movable: Option<bool> = match value_get(entry, "movable") {
        None => None,
        Some(v) => value_as_bool(v),
    };
    let r = build_descriptor(name, path, movable, help);
    proof {
        if entry_has_path(*entry) {
            assert(r->0@ =~= entry_model(*entry));
        }
    }
    r
}

/// The descriptors a sequence of entries declares: one per entry with a
/// usable `path`, in entry order.
pub open spec fn entries_descriptors(entries: Seq<serde_json::Value>) -> Seq<DescriptorModel>
    decreases entries.len(),
{
    if entries.len() == 0 {
        Seq::empty()
    } else if entry_has_path(entries[0]) {
        seq![entry_model(entries[0])] + entries_descriptors(entries.drop_first())
    } else {
        entries_descriptors(entries.drop_first())
    }
}

/// Appending an entry appends its descriptor, if it yields one.
proof fn lemma_entries_descriptors_push(entries: Seq<serde_json::Value>, entry: serde_json::Value)
    ensures
        entries_descriptors(entries.push(entry)) == entries_descriptors(entries) + (
        if entry_has_path(entry) {
            seq![entry_model(entry)]
        } else {
            Seq::<DescriptorModel>::empty()
        }),
    decreases entries.len(),
{
    if entries.len() == 0 {
        reveal_with_fuel(entries_descriptors, 3);
        assert(entries.push(entry).drop_first() =~= Seq::<serde_json::Value>::empty());
        assert(entries =~= Seq::<serde_json::Value>::empty());
        assert(entries.push(entry)[0] == entry);
        if entry_has_path(entry) {
            assert(entries_descriptors(entries.push(entry)) =~= entries_descriptors(entries) + seq![
                entry_model(entry),
            ]);
        } else {
            assert(entries_descriptors(entries.push(entry)) =~= entries_descriptors(entries)
                + Seq::<DescriptorModel>::empty());
        }
    } else {
        assert(entries.push(entry).drop_first() =~= entries.drop_first().push(entry));
        assert(entries.push(entry)[0] == entries[0]);
        lemma_entries_descriptors_push(entries.drop_first(), entry);
        assert(entries_descriptors(entries.push(entry)) =~= entries_descriptors(entries) + (
        if entry_has_path(entry) {
            seq![entry_model(entry)]
        } else {
            Seq::<DescriptorModel>::empty()
        }));
    }
}

/// The descriptors of a slice of entries, in entry order; entries without
/// a usable `path` are skipped silently.
pub fn descriptors_of_entries(entries: &Vec<serde_json::Value>) -> (r: Vec<Descriptor>)
    ensures
        r@.map_values(|d: Descriptor| d@) == entries_descriptors(entries@),
{
    let mut out: Vec<Descriptor> = Vec::new();
    let mut i: usize = 0;
    proof {
        assert(entries@.take(0) =~= Seq::<serde_json::Value>::empty());
        assert(out@.map_values(|d: Descriptor| d@) =~= entries_descriptors(entries@.take(0)));
    }
    while i < entries.len()
        invariant
            i <= entries@.len(),
            out@.map_values(|d: Descriptor| d@) == entries_descriptors(entries@.take(i as int)),
        decreases entries@.len() - i,
    {
        proof {
            assert(entries@.take(i as int + 1) =~= entries@.take(i as int).push(entries@[i as int]));
            lemma_entries_descriptors_push(entries@.take(i as int), entries@[i as int]);
        }
        match descriptor_from_entry(&entries[i]) {
            Some(d) => {
                proof {
                    assert((out@ + seq![d]).map_values(|x: Descriptor| x@) =~= out@.map_values(
                        |x: Descriptor| x@,
                    ) + seq![d@]);
                    assert(out@.map_values(|x: Descriptor| x@) + seq![d@] =~= entries_descriptors(
                        entries@.take(i as int + 1),
                    ));
                }
                out.push(d);
            },
            None => {
                proof {
                    assert(entries_descriptors(entries@.take(i as int + 1)) =~= entries_descriptors(
                        entries@.take(i as int),
                    ) + Seq::<DescriptorModel>::empty());
                    assert(entries_descriptors(entries@.take(i as int + 1)) =~= out@.map_values(
                        |d: Descriptor| d@,
                    ));
                }
            },
        }
        i += 1;
    }
    proof {
        assert(entries@.take(entries@.len() as int) =~= entries@);
    }
    out
}

/// The `files` array a document declares, or `None` when the `files` key
/// is absent or holds anything but an array.
pub open spec fn document_files(doc: serde_json::Value) -> Option<Seq<serde_json::Value>> {
    if has_key(doc, "files"@) && is_array(key_value(doc, "files"@)) {
        Some(array_content(key_value(doc, "files"@)))
    } else {
        None
    }
}

/// The descriptors one document declares: those of its `files` array, or
/// none at all when it declares no such array.
pub open spec fn document_model(doc: serde_json::Value) -> Seq<DescriptorModel> {
    match document_files(doc) {
        Some(entries) => entries_descriptors(entries),
        None => Seq::empty(),
    }
}

/// A document whose `files` key is absent, or holds null or anything but
/// an array, declares no descriptors — and produces no error, since
/// extraction is total.
pub proof fn lemma_no_files_no_descriptors(doc: serde_json::Value)
    requires
        document_files(doc) is None,
    ensures
        document_model(doc) == Seq::<DescriptorModel>::empty(),
{
}

/// The ordered descriptors of one parsed document. A document whose
/// `files` key is absent, or whose `files` value is not an array, yields
/// no descriptors and no error.
pub fn document_descriptors(doc: &serde_json::Value) -> (r: Vec<Descriptor>)
    ensures
        r@.map_values(|d: Descriptor| d@) == document_model(*doc),
{
    let empty_result: Vec<Descriptor> = Vec::new();
    proof {
        assert(empty_result@.map_values(|d: Descriptor| d@) =~= Seq::<DescriptorModel>::empty());
    }
    match value_get(doc, "files") {
        None => empty_result,
        Some(files) => match value_as_array(files) {
            None => empty_result,
            Some(entries) => descriptors_of_entries(entries),
        },
    }
}

} // verus!
