use vstd::prelude::*;

verus! {

/// The languages the bot's texts are written in.
pub enum Language {
    English,
}

/// The file that holds a language's texts, relative to the bot's directory.
pub fn locale_file(lang: Language) -> (path: &'static str)
    ensures
        lang == Language::English ==> path@ == "locals/eng.yml"@,
{
    match lang {
        Language::English => "locals/eng.yml",
    }
}

#[verifier::external_type_specification]
#[verifier::external_body]
pub struct ExYamlError(serde_yaml::Error);

/// The string-to-string mapping that a YAML document describes, as its
/// entries in ascending key order, or `None` when the document is not such a
/// mapping.
pub uninterp spec fn yaml_string_map(text: Seq<char>) -> Option<Seq<(Seq<char>, Seq<char>)>>;

/// The views of a list of key/value entries.
pub open spec fn entries_view(entries: Seq<(String, String)>) -> Seq<(Seq<char>, Seq<char>)> {
    entries.map_values(|e: (String, String)| (e.0@, e.1@))
}

/// No key occurs twice among the entries.
pub open spec fn distinct_keys(entries: Seq<(Seq<char>, Seq<char>)>) -> bool {
    forall|i: int, j: int|
        0 <= i < entries.len() && 0 <= j < entries.len() && i != j ==> #[trigger] entries[i].0
            != #[trigger] entries[j].0
}

/// Reads `text` as a YAML mapping from strings to strings with
/// `serde_yaml::from_str::<BTreeMap<String, String>>`, and lists the map's
/// entries as the `BTreeMap` yields them. The result is the one that
/// `yaml_string_map` names for the text (what the parse makes of a given
/// document is not stated here); on success the keys are distinct, since
/// they come from one map.
#[verifier::external_body]
fn parse_string_map(text: &str) -> (r: Result<Vec<(String, String)>, serde_yaml::Error>)
    ensures
        r is Ok == yaml_string_map(text@) is Some,
        r matches Ok(entries) ==> entries_view(entries@) == yaml_string_map(text@)->0,
        r matches Ok(entries) ==> distinct_keys(entries_view(entries@)),
{
    match serde_yaml::from_str::<std::collections::BTreeMap<String, String>>(text) {
        Ok(map) => Ok(map.into_iter().collect()),
        Err(e) => Err(e),
    }
}

/// A language file that could not be read as a mapping from text keys to
/// texts.
pub enum LocaleError {
    Malformed,
}

/// The text stored under `key`: the value of the first entry with that key,
/// or "Template text" when there is none.
pub open spec fn local_text(entries: Seq<(Seq<char>, Seq<char>)>, key: Seq<char>) -> Seq<char>
    decreases entries.len(),
{
    if entries.len() == 0 {
        "Template text"@
    } else if entries[0].0 == key {
        entries[0].1
    } else {
        local_text(entries.drop_first(), key)
    }
}

/// When some entry has the key, the text found is the value of the first
/// such entry, wherever it stands among the entries.
pub proof fn law_local_text_finds_first_entry(
    entries: Seq<(Seq<char>, Seq<char>)>,
    key: Seq<char>,
    i: int,
)
    requires
        0 <= i < entries.len(),
        entries[i].0 == key,
        forall|j: int| 0 <= j < i ==> entries[j].0 != key,
    ensures
        local_text(entries, key) == entries[i].1,
    decreases i,
{
    if i > 0 {
        law_local_text_finds_first_entry(entries.drop_first(), key, i - 1);
    }
}

/// In a language file, where no key occurs twice, the text found for a key
/// that some entry has is that entry's value.
pub proof fn law_local_text_finds_the_entry(
    entries: Seq<(Seq<char>, Seq<char>)>,
    key: Seq<char>,
    i: int,
)
    requires
        distinct_keys(entries),
        0 <= i < entries.len(),
        entries[i].0 == key,
    ensures
        local_text(entries, key) == entries[i].1,
{
    assert forall|j: int| 0 <= j < i implies entries[j].0 != key by {
        assert(entries[j].0 != entries[i].0);
    }
    law_local_text_finds_first_entry(entries, key, i);
}

/// When no entry has the key, the text found is "Template text".
pub proof fn law_local_text_missing_key(entries: Seq<(Seq<char>, Seq<char>)>, key: Seq<char>)
    requires
        forall|j: int| 0 <= j < entries.len() ==> entries[j].0 != key,
    ensures
        local_text(entries, key) == "Template text"@,
    decreases entries.len(),
{
    if entries.len() > 0 {
        let rest = entries.drop_first();
        assert forall|j: int| 0 <= j < rest.len() implies rest[j].0 != key by {
            assert(rest[j] == entries[j + 1]);
        }
        law_local_text_missing_key(rest, key);
    }
}

/// Looks `key` up among the entries of a language file.
pub fn lookup(entries: &Vec<(String, String)>, key: &str) -> (s: String)
    ensures
        s@ == local_text(entries_view(entries@), key@),
{
    let ghost all = entries_view(entries@);
    let wanted = String::from_str(key);
    let len = entries.len();
    assert(all.subrange(0, len as int) =~= all);
    let mut i: usize = 0;
    while i < len
        invariant
            len == entries@.len(),
            all == entries_view(entries@),
            wanted@ == key@,
            0 <= i <= len,
            local_text(all, key@) == local_text(all.subrange(i as int, len as int), key@),
        decreases len - i,
    {
        let ghost rest = all.subrange(i as int, len as int);
        assert(rest[0] == (entries@[i as int].0@, entries@[i as int].1@));
        if entries[i].0 == wanted {
            return entries[i].1.clone();
        }
        assert(rest.drop_first() =~= all.subrange(i + 1, len as int));
        i = i + 1;
    }
    String::from_str("Template text")
}

/// The text stored under `key` in the language file `file_text`, or an
/// error when the file is not a mapping from strings to strings.
pub fn get_local(file_text: &str, key: &str) -> (r: Result<String, LocaleError>)
    ensures
        r is Ok == yaml_string_map(file_text@) is Some,
        r matches Ok(s) ==> s@ == local_text(yaml_string_map(file_text@)->0, key@),
{
    match parse_string_map(file_text) {
        Ok(entries) => Ok(lookup(&entries, key)),
        Err(_) => Err(LocaleError::Malformed),
    }
}

} // verus!
