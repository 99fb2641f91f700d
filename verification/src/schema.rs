//! The configuration file's schema: which keys a document holds, what kind of
//! value stands under each, and how a configuration is written as a list of
//! entries and read back from one.

use vstd::prelude::*;
use crate::config::ConfigView;
use crate::config::RunnerConfig;

verus! {

/// A value of the configuration file: text or a flag.
#[derive(Debug, Clone, PartialEq, Eq)]
pub enum Field {
    Text(String),
    Flag(bool),
}

/// A value of the configuration file, as mathematical values.
pub ghost enum FieldView {
    Text(Seq<char>),
    Flag(bool),
}

impl View for Field {
    type V = FieldView;

    open spec fn view(&self) -> FieldView {
        match self {
            Field::Text(text) => FieldView::Text(text@),
            Field::Flag(flag) => FieldView::Flag(*flag),
        }
    }
}

/// What kind of value a key of the schema holds.
#[derive(Debug, Clone, Copy, PartialEq, Eq, Structural)]
pub enum FieldKind {
    Text,
    Flag,
}

/// Why a document is not a configuration.
#[derive(Debug, Clone, PartialEq, Eq)]
pub enum SchemaError {
    /// The document has no entry under this key.
    Missing { field: String },
    /// The entry under this key holds a value of another kind than the schema asks for.
    Mistyped { field: String },
}

/// A schema error, as mathematical values.
pub ghost enum SchemaErrorView {
    Missing { field: Seq<char> },
    Mistyped { field: Seq<char> },
}

impl View for SchemaError {
    type V = SchemaErrorView;

    open spec fn view(&self) -> SchemaErrorView {
        match self {
            SchemaError::Missing { field } => SchemaErrorView::Missing { field: field@ },
            SchemaError::Mistyped { field } => SchemaErrorView::Mistyped { field: field@ },
        }
    }
}

/// One entry of a document that was read: a key, and its value where that is
/// text or a flag (`None` for a value of any other kind).
pub type Entry = (String, Option<Field>);

/// An entry that was read, as mathematical values.
pub type EntryView = (Seq<char>, Option<FieldView>);

pub open spec fn read_value_view(value: Option<Field>) -> Option<FieldView> {
    match value {
        Some(field) => Some(field@),
        None => None,
    }
}

/// The entries of a document that was read, as mathematical values.
pub open spec fn document_view(entries: Seq<Entry>) -> Seq<EntryView> {
    Seq::new(entries.len(), |i: int| (entries[i].0@, read_value_view(entries[i].1)))
}

/// The entries of a document to write, as mathematical values.
pub open spec fn entries_view(entries: Seq<(String, Field)>) -> Seq<(Seq<char>, FieldView)> {
    Seq::new(entries.len(), |i: int| (entries[i].0@, entries[i].1@))
}

/// A document to write, seen as one that was read: every value is text or a flag.
pub open spec fn as_read(entries: Seq<(Seq<char>, FieldView)>) -> Seq<EntryView> {
    Seq::new(entries.len(), |i: int| (entries[i].0, Some(entries[i].1)))
}

/// The keys of a configuration file with the kind of each, in the order in
/// which they are written.
pub open spec fn schema() -> Seq<(Seq<char>, FieldKind)> {
    seq![
        ("project_path"@, FieldKind::Text),
        ("auto_build"@, FieldKind::Flag),
        ("build_cmd"@, FieldKind::Text),
        ("binary_path"@, FieldKind::Text),
        ("efi_name"@, FieldKind::Text),
        ("move_binary"@, FieldKind::Flag),
        ("qemu_cmd"@, FieldKind::Text),
        ("ovmf_path"@, FieldKind::Text),
        ("stdio_serial"@, FieldKind::Flag),
        ("log_serial"@, FieldKind::Flag),
        ("log_path"@, FieldKind::Text),
    ]
}

/// The value of the first entry under `key`, if there is one.
pub open spec fn lookup(entries: Seq<EntryView>, key: Seq<char>) -> Option<Option<FieldView>>
    decreases entries.len(),
{
    if entries.len() == 0 {
        None
    } else if entries[0].0 == key {
        Some(entries[0].1)
    } else {
        lookup(entries.drop_first(), key)
    }
}

/// What is wrong with the entry under `key`, if anything, where the schema
/// asks for a value of `kind`.
pub open spec fn fault(entries: Seq<EntryView>, key: Seq<char>, kind: FieldKind) -> Option<
    SchemaErrorView,
> {
    match lookup(entries, key) {
        None => Some(SchemaErrorView::Missing { field: key }),
        Some(Some(FieldView::Text(_))) => if kind == FieldKind::Text {
            None
        } else {
            Some(SchemaErrorView::Mistyped { field: key })
        },
        Some(Some(FieldView::Flag(_))) => if kind == FieldKind::Flag {
            None
        } else {
            Some(SchemaErrorView::Mistyped { field: key })
        },
        Some(None) => Some(SchemaErrorView::Mistyped { field: key }),
    }
}

/// The fault of the first key of the schema, from position `from` on, whose
/// entry is missing or of the wrong kind.
pub open spec fn first_fault(entries: Seq<EntryView>, from: int) -> Option<SchemaErrorView>
    decreases schema().len() - from,
{
    if from < 0 || from >= schema().len() {
        None
    } else {
        match fault(entries, schema()[from].0, schema()[from].1) {
            Some(error) => Some(error),
            None => first_fault(entries, from + 1),
        }
    }
}

/// The text under `key`; meaningful where the entry holds text.
pub open spec fn text_at(entries: Seq<EntryView>, key: Seq<char>) -> Seq<char> {
    match lookup(entries, key) {
        Some(Some(FieldView::Text(text))) => text,
        _ => Seq::empty(),
    }
}

/// The flag under `key`; meaningful where the entry holds a flag.
pub open spec fn flag_at(entries: Seq<EntryView>, key: Seq<char>) -> bool {
    match lookup(entries, key) {
        Some(Some(FieldView::Flag(flag))) => flag,
        _ => false,
    }
}

/// The configuration that a document holds: each field is the value of the
/// first entry under its key. A document in which a key of the schema is
/// missing or holds a value of the wrong kind is no configuration, and the
/// error names the first such key in the schema's order. Entries under other
/// keys are ignored.
pub open spec fn decode(entries: Seq<EntryView>) -> Result<ConfigView, SchemaErrorView> {
    match first_fault(entries, 0) {
        Some(error) => Err(error),
        None => Ok(
            ConfigView {
                project_path: text_at(entries, "project_path"@),
                auto_build: flag_at(entries, "auto_build"@),
                build_cmd: text_at(entries, "build_cmd"@),
                binary_path: text_at(entries, "binary_path"@),
                efi_name: text_at(entries, "efi_name"@),
                move_binary: flag_at(entries, "move_binary"@),
                qemu_cmd: text_at(entries, "qemu_cmd"@),
                ovmf_path: text_at(entries, "ovmf_path"@),
                stdio_serial: flag_at(entries, "stdio_serial"@),
                log_serial: flag_at(entries, "log_serial"@),
                log_path: text_at(entries, "log_path"@),
            },
        ),
    }
}

/// The document that holds `config`: one entry for each key of the schema, in
/// the schema's order.
pub open spec fn encode(config: ConfigView) -> Seq<(Seq<char>, FieldView)> {
    seq![
        ("project_path"@, FieldView::Text(config.project_path)),
        ("auto_build"@, FieldView::Flag(config.auto_build)),
        ("build_cmd"@, FieldView::Text(config.build_cmd)),
        ("binary_path"@, FieldView::Text(config.binary_path)),
        ("efi_name"@, FieldView::Text(config.efi_name)),
        ("move_binary"@, FieldView::Flag(config.move_binary)),
        ("qemu_cmd"@, FieldView::Text(config.qemu_cmd)),
        ("ovmf_path"@, FieldView::Text(config.ovmf_path)),
        ("stdio_serial"@, FieldView::Flag(config.stdio_serial)),
        ("log_serial"@, FieldView::Flag(config.log_serial)),
        ("log_path"@, FieldView::Text(config.log_path)),
    ]
}

proof fn lemma_lookup_skip(entries: Seq<EntryView>, key: Seq<char>, checked: int)
    requires
        0 <= checked <= entries.len(),
        forall|j: int| 0 <= j < checked ==> entries[j].0 != key,
    ensures
        lookup(entries, key) == lookup(entries.skip(checked), key),
    decreases checked,
{
    if checked == 0 {
        assert(entries.skip(0) =~= entries);
    } else {
        lemma_lookup_skip(entries, key, checked - 1);
        let rest = entries.skip(checked - 1);
        assert(rest[0] == entries[checked - 1]);
        assert(rest.drop_first() =~= entries.skip(checked));
    }
}

proof fn lemma_lookup_at(entries: Seq<EntryView>, key: Seq<char>, at: int)
    requires
        0 <= at < entries.len(),
        entries[at].0 == key,
        forall|j: int| 0 <= j < at ==> entries[j].0 != key,
    ensures
        lookup(entries, key) == Some(entries[at].1),
{
    lemma_lookup_skip(entries, key, at);
    assert(entries.skip(at)[0] == entries[at]);
}

/// No key stands twice in the schema.
pub proof fn lemma_schema_keys_differ()
    ensures
        schema().len() == 11,
        forall|i: int, j: int| 0 <= i < j < 11 ==> schema()[i].0 != schema()[j].0,
{
    reveal_strlit("project_path");
    reveal_strlit("auto_build");
    reveal_strlit("build_cmd");
    reveal_strlit("binary_path");
    reveal_strlit("efi_name");
    reveal_strlit("move_binary");
    reveal_strlit("qemu_cmd");
    reveal_strlit("ovmf_path");
    reveal_strlit("stdio_serial");
    reveal_strlit("log_serial");
    reveal_strlit("log_path");
    let keys = schema();
    assert forall|i: int, j: int| 0 <= i < j < 11 implies keys[i].0 != keys[j].0 by {
        assert(keys[i].0.len() != keys[j].0.len() || keys[i].0[0] != keys[j].0[0]);
    }
}

/// A configuration that is written as a document and read back is unchanged:
/// reading succeeds and gives every field the value it had.
pub proof fn lemma_decode_encode(config: ConfigView)
    ensures
        decode(as_read(encode(config))) == Ok::<ConfigView, SchemaErrorView>(config),
{
    let document = as_read(encode(config));
    lemma_schema_keys_differ();
    assert(document.len() == 11);
    assert forall|i: int| 0 <= i < 11 implies #[trigger] lookup(document, schema()[i].0) == Some(
        document[i].1,
    ) by {
        assert(document[i].0 == schema()[i].0);
        assert forall|j: int| 0 <= j < i implies document[j].0 != schema()[i].0 by {
            assert(document[j].0 == schema()[j].0);
        }
        lemma_lookup_at(document, schema()[i].0, i);
    }
    assert(lookup(document, schema()[0].0) == Some(document[0].1));
    assert(lookup(document, schema()[1].0) == Some(document[1].1));
    assert(lookup(document, schema()[2].0) == Some(document[2].1));
    assert(lookup(document, schema()[3].0) == Some(document[3].1));
    assert(lookup(document, schema()[4].0) == Some(document[4].1));
    assert(lookup(document, schema()[5].0) == Some(document[5].1));
    assert(lookup(document, schema()[6].0) == Some(document[6].1));
    assert(lookup(document, schema()[7].0) == Some(document[7].1));
    assert(lookup(document, schema()[8].0) == Some(document[8].1));
    assert(lookup(document, schema()[9].0) == Some(document[9].1));
    assert(lookup(document, schema()[10].0) == Some(document[10].1));
    reveal_with_fuel(first_fault, 12);
    assert(first_fault(document, 0) is None);
}

/// Finds the value of the first entry under `key`.
fn find<'a>(entries: &'a Vec<Entry>, key: &String) -> (found: Option<&'a Option<Field>>)
    ensures
        match found {
            Some(value) => lookup(document_view(entries@), key@) == Some(read_value_view(*value)),
            None => lookup(document_view(entries@), key@) is None,
        },
{
    let ghost document = document_view(entries@);
    let mut i: usize = 0;
    while i < entries.len()
        invariant
            i <= entries.len(),
            document == document_view(entries@),
            forall|j: int| 0 <= j < i ==> document[j].0 != key@,
        decreases entries.len() - i,
    {
        if entries[i].0 == *key {
            proof {
                lemma_lookup_skip(document, key@, i as int);
                assert(document.skip(i as int)[0] == document[i as int]);
            }
            return Some(&entries[i].1);
        }
        i += 1;
    }
    proof {
        lemma_lookup_skip(document, key@, i as int);
    }
    None
}

/// Reads the text under `key`.
fn take_text(entries: &Vec<Entry>, key: &str) -> (taken: Result<String, SchemaError>)
    ensures
        match taken {
            Ok(text) => fault(document_view(entries@), key@, FieldKind::Text) is None && text@
                == text_at(document_view(entries@), key@),
            Err(error) => fault(document_view(entries@), key@, FieldKind::Text) == Some(error@),
        },
{
    let name = key.to_string();
    match find(entries, &name) {
        None => Err(SchemaError::Missing { field: name }),
        Some(Some(Field::Text(text))) => Ok(text.clone()),
        Some(_) => Err(SchemaError::Mistyped { field: name }),
    }
}

/// Reads the flag under `key`.
fn take_flag(entries: &Vec<Entry>, key: &str) -> (taken: Result<bool, SchemaError>)
    ensures
        match taken {
            Ok(flag) => fault(document_view(entries@), key@, FieldKind::Flag) is None && flag
                == flag_at(document_view(entries@), key@),
            Err(error) => fault(document_view(entries@), key@, FieldKind::Flag) == Some(error@),
        },
{
    let name = key.to_string();
    match find(entries, &name) {
        None => Err(SchemaError::Missing { field: name }),
        Some(Some(Field::Flag(flag))) => Ok(*flag),
        Some(_) => Err(SchemaError::Mistyped { field: name }),
    }
}

/// Reads a configuration from the entries of a document. Succeeds exactly
/// where every key of the schema has an entry of its kind; otherwise the error
/// names the first key of the schema that has none.
pub fn decode_config(entries: &Vec<Entry>) -> (decoded: Result<RunnerConfig, SchemaError>)
    ensures
        match decoded {
            Ok(config) => decode(document_view(entries@)) == Ok::<ConfigView, SchemaErrorView>(
                config@,
            ),
            Err(error) => decode(document_view(entries@)) == Err::<ConfigView, SchemaErrorView>(
                error@,
            ),
        },
{
    proof {
        reveal_with_fuel(first_fault, 12);
    }
    let project_path = match take_text(entries, "project_path") {
        Ok(text) => text,
        Err(error) => { return Err(error); },
    };
    let auto_build = match take_flag(entries, "auto_build") {
        Ok(flag) => flag,
        Err(error) => { return Err(error); },
    };
    let build_cmd = match take_text(entries, "build_cmd") {
        Ok(text) => text,
        Err(error) => { return Err(error); },
    };
    let binary_path = match take_text(entries, "binary_path") {
        Ok(text) => text,
        Err(error) => { return Err(error); },
    };
    let efi_name = match take_text(entries, "efi_name") {
        Ok(text) => text,
        Err(error) => { return Err(error); },
    };
    let move_binary = match take_flag(entries, "move_binary") {
        Ok(flag) => flag,
        Err(error) => { return Err(error); },
    };
    let qemu_cmd = match take_text(entries, "qemu_cmd") {
        Ok(text) => text,
        Err(error) => { return Err(error); },
    };
    let ovmf_path = match take_text(entries, "ovmf_path") {
        Ok(text) => text,
        Err(error) => { return Err(error); },
    };
    let stdio_serial = match take_flag(entries, "stdio_serial") {
        Ok(flag) => flag,
        Err(error) => { return Err(error); },
    };
    let log_serial = match take_flag(entries, "log_serial") {
        Ok(flag) => flag,
        Err(error) => { return Err(error); },
    };
    let log_path = match take_text(entries, "log_path") {
        Ok(text) => text,
        Err(error) => { return Err(error); },
    };
    Ok(
        RunnerConfig {
            project_path,
            auto_build,
            build_cmd,
            binary_path,
            efi_name,
            move_binary,
            qemu_cmd,
            ovmf_path,
            stdio_serial,
            log_serial,
            log_path,
        },
    )
}

/// Writes a configuration as the entries of a document, one for each key of
/// the schema and in the schema's order.
pub fn encode_config(config: &RunnerConfig) -> (entries: Vec<(String, Field)>)
    ensures
        entries_view(entries@) == encode(config@),
{
    let mut entries: Vec<(String, Field)> = Vec::new();
    entries.push(("project_path".to_string(), Field::Text(config.project_path.clone())));
    entries.push(("auto_build".to_string(), Field::Flag(config.auto_build)));
    entries.push(("build_cmd".to_string(), Field::Text(config.build_cmd.clone())));
    entries.push(("binary_path".to_string(), Field::Text(config.binary_path.clone())));
    entries.push(("efi_name".to_string(), Field::Text(config.efi_name.clone())));
    entries.push(("move_binary".to_string(), Field::Flag(config.move_binary)));
    entries.push(("qemu_cmd".to_string(), Field::Text(config.qemu_cmd.clone())));
    entries.push(("ovmf_path".to_string(), Field::Text(config.ovmf_path.clone())));
    entries.push(("stdio_serial".to_string(), Field::Flag(config.stdio_serial)));
    entries.push(("log_serial".to_string(), Field::Flag(config.log_serial)));
    entries.push(("log_path".to_string(), Field::Text(config.log_path.clone())));
    assert(entries_view(entries@) =~= encode(config@));
    entries
}

} // verus!
