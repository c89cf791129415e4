//! Schemas: for each command name, the ordered list of the steps that the
//! command runs. Schemas are written down in JSON documents of the shape
//! `{ "<command>": { "steps": ["<event>", ...] } }`; where several documents
//! name the same command, the last one counts.
use vstd::prelude::*;
use vstd::pervasive::unreached;
use vstd::string::StringExecFns;
use vstd::string::StrSliceExecFns;
use crate::codec::{parse, parsed_text};
use crate::embedded::{CORE_SCHEMA, SAMPLE_SCHEMA};
use crate::json::{
    entries_of, keys_of, lemma_array_view, lemma_object_view, lookup, views_of, Entries, Json,
    JsonView,
};
use crate::text::{join2, lemma_last_index, texts};

verus! {

/// The steps of one command, in the order in which they run.
#[derive(Debug)]
pub struct NyaSchema {
    pub steps: Vec<String>,
}

/// One document of schemas, with the name it goes by in messages.
pub struct SchemaFile {
    pub name: String,
    pub content: String,
}

/// The steps that a value declares, where it is a schema: an object whose
/// member `steps` is a list of strings.
pub open spec fn steps_of(value: JsonView) -> Option<Seq<Seq<char>>> {
    match value {
        JsonView::Object(entries) => match lookup(entries, "steps"@) {
            Some(JsonView::Array(items)) => if forall|i: int|
                0 <= i < items.len() ==> items[i] is String {
                Some(Seq::new(items.len(), |i: int| items[i]->String_0))
            } else {
                None
            },
            _ => None,
        },
        _ => None,
    }
}

/// The steps that a value declares; `None` where the value is no schema.
pub fn decode_steps(value: &Json) -> (r: Option<Vec<String>>)
    ensures
        match steps_of(value@) {
            Some(steps) => r matches Some(found) && texts(found@) == steps,
            None => r is None,
        },
{
    match value.get("steps") {
        Some(Json::Array(items)) => {
            proof {
                lemma_array_view(*items);
            }
            let ghost models = views_of(items@);
            let mut steps: Vec<String> = Vec::new();
            let mut i: usize = 0;
            while i < items.len()
                invariant
                    i <= items.len(),
                    models == views_of(items@),
                    value@ is Object,
                    lookup(value@->Object_0, "steps"@) == Some(JsonView::Array(models)),
                    steps@.len() == i,
                    forall|j: int| 0 <= j < i ==> models[j] == JsonView::String(steps@[j]@),
                decreases items.len() - i,
            {
                match &items[i] {
                    Json::String(step) => {
                        steps.push(step.clone());
                    },
                    _ => {
                        assert(!(models[i as int] is String));
                        return None;
                    },
                }
                i = i + 1;
            }
            assert(texts(steps@) =~= Seq::new(models.len(), |i: int| models[i]->String_0));
            Some(steps)
        },
        _ => None,
    }
}

/// The mathematical model of a [`SchemaFile`].
pub struct SchemaFileView {
    pub name: Seq<char>,
    pub content: Seq<char>,
}

impl View for SchemaFile {
    type V = SchemaFileView;

    open spec fn view(&self) -> SchemaFileView {
        SchemaFileView { name: self.name@, content: self.content@ }
    }
}

/// The views of a list of documents.
pub open spec fn file_views(files: Seq<SchemaFile>) -> Seq<SchemaFileView> {
    Seq::new(files.len(), |i: int| files[i]@)
}

/// The schemas that a document declares, or why the document is refused: it
/// must be JSON text that denotes an object, and each entry of the object
/// must be a schema.
pub open spec fn schema_entries(content: Seq<char>) -> Result<Entries, Seq<char>> {
    match parsed_text(content) {
        Err(message) => Err(message),
        Ok(JsonView::Object(entries)) => if forall|i: int|
            0 <= i < entries.len() ==> steps_of(#[trigger] entries[i].value) is Some {
            Ok(entries)
        } else {
            Err("a schema is not an object with a list of step names"@)
        },
        Ok(_) => Err("the document is not a JSON object"@),
    }
}

/// Whether a file name has the extension `json`: it ends in `.json`, and
/// something other than a `/` stands before the dot.
pub open spec fn has_json_extension(name: Seq<char>) -> bool {
    let n = name.len() as int;
    n > 5 && name.subrange(n - 5, n) == ".json"@ && name[n - 6] != '/'
}

/// Whether a file name has the extension `json`.
pub fn is_json_file(name: &str) -> (r: bool)
    ensures
        r == has_json_extension(name@),
{
    let n = name.unicode_len();
    proof {
        reveal_strlit(".json");
    }
    if n <= 5 {
        false
    } else {
        let matches = name.get_char(n - 5) == '.' && name.get_char(n - 4) == 'j' && name.get_char(
            n - 3,
        ) == 's' && name.get_char(n - 2) == 'o' && name.get_char(n - 1) == 'n';
        let ghost tail = name@.subrange(n - 5, n as int);
        proof {
            if matches {
                assert(tail =~= ".json"@);
            } else {
                assert(tail[0] == name@[n - 5]);
                assert(tail[1] == name@[n - 4]);
                assert(tail[2] == name@[n - 3]);
                assert(tail[3] == name@[n - 2]);
                assert(tail[4] == name@[n - 1]);
            }
        }
        matches && name.get_char(n - 6) != '/'
    }
}

/// The steps that a list of documents gives to a command, as a
/// specification. The documents are read in order, and those whose name has
/// not the extension `json` are passed over. The first one that is refused
/// ends the lookup with its error; otherwise the last document that names
/// the command decides, and `None` says that no document names it.
pub open spec fn resolve(files: Seq<SchemaFileView>, cmd: Seq<char>) -> Result<
    Option<Seq<Seq<char>>>,
    Seq<char>,
>
    decreases files.len(),
{
    if files.len() == 0 {
        Ok(None)
    } else {
        match resolve(files.drop_last(), cmd) {
            Err(message) => Err(message),
            Ok(earlier) => if !has_json_extension(files.last().name) {
                Ok(earlier)
            } else {
                match schema_entries(files.last().content) {
                    Err(reason) => Err("Failed to parse "@ + files.last().name + ": "@ + reason),
                    Ok(entries) => match lookup(entries, cmd) {
                        Some(value) => Ok(steps_of(value)),
                        None => Ok(earlier),
                    },
                }
            },
        }
    }
}

/// The steps of a command, or the error of the lookup: that of `resolve`, or
/// the complaint that no document names the command.
pub open spec fn schema_steps(files: Seq<SchemaFileView>, cmd: Seq<char>) -> Result<
    Seq<Seq<char>>,
    Seq<char>,
> {
    match resolve(files, cmd) {
        Err(message) => Err(message),
        Ok(Some(steps)) => Ok(steps),
        Ok(None) => Err("Get Schema(): wasn't able to successfully retrieve schema"@),
    }
}

/// Reads one document of schemas and checks every schema in it.
fn read_schemas(content: &str) -> (r: Result<Json, String>)
    ensures
        match schema_entries(content@) {
            Ok(entries) => r matches Ok(document) && document@ == JsonView::Object(entries),
            Err(message) => r matches Err(e) && e@ == message,
        },
{
    match parse(content) {
        Err(message) => Err(message),
        Ok(document) => {
            match &document {
                Json::Object(entries) => {
                    proof {
                        lemma_object_view(*entries);
                    }
                    let ghost models = entries_of(entries@);
                    let mut i: usize = 0;
                    while i < entries.len()
                        invariant
                            i <= entries.len(),
                            models == entries_of(entries@),
                            parsed_text(content@) == Ok::<JsonView, Seq<char>>(
                                JsonView::Object(models),
                            ),
                            forall|j: int| 0 <= j < i ==> steps_of(#[trigger] models[j].value) is Some,
                        decreases entries.len() - i,
                    {
                        match decode_steps(&entries[i].value) {
                            Some(_) => {},
                            None => {
                                assert(steps_of(models[i as int].value) is None);
                                return Err(
                                    "a schema is not an object with a list of step names".to_owned(),
                                );
                            },
                        }
                        i = i + 1;
                    }
                },
                _ => {
                    return Err("the document is not a JSON object".to_owned());
                },
            }
            Ok(document)
        },
    }
}

/// The message of a document that was refused.
fn refusal(name: &str, reason: &str) -> (r: String)
    ensures
        r@ == "Failed to parse "@ + name@ + ": "@ + reason@,
{
    let mut out = join2("Failed to parse ", name);
    out.append(": ");
    out.append(reason);
    out
}

/// The steps that the documents give to the command `cmd`.
///
/// Documents whose name has not the extension `json` are passed over. `Ok`
/// exactly when every other document is accepted and one of them names the
/// command; the steps are those of the last document that names it.
pub fn find_schema(files: &Vec<SchemaFile>, cmd: &str) -> (r: Result<Vec<String>, String>)
    ensures
        match schema_steps(file_views(files@), cmd@) {
            Ok(steps) => r matches Ok(found) && texts(found@) == steps,
            Err(message) => r matches Err(e) && e@ == message,
        },
{
    let ghost all = file_views(files@);
    let mut found: Option<Vec<String>> = None;
    let mut i: usize = 0;
    while i < files.len()
        invariant
            i <= files.len(),
            all == file_views(files@),
            match resolve(all.take(i as int), cmd@) {
                Ok(Some(steps)) => found matches Some(held) && texts(held@) == steps,
                Ok(None) => found is None,
                Err(_) => false,
            },
        decreases files.len() - i,
    {
        proof {
            assert(all.take(i + 1).drop_last() =~= all.take(i as int));
            assert(all.take(i + 1).last() == files@[i as int]@);
        }
        if is_json_file(files[i].name.as_str()) {
            match read_schemas(files[i].content.as_str()) {
                Err(reason) => {
                    proof {
                        assert(all.take(files@.len() as int) =~= all);
                        lemma_refusal_stays(all, cmd@, i + 1);
                    }
                    return Err(refusal(files[i].name.as_str(), reason.as_str()));
                },
                Ok(document) => {
                    match document.get(cmd) {
                        Some(value) => {
                            proof {
                                let entries = document@->Object_0;
                                lemma_last_index(keys_of(entries), cmd@);
                            }
                            found = decode_steps(value);
                        },
                        None => {},
                    }
                },
            }
        }
        i = i + 1;
    }
    proof {
        assert(all.take(files@.len() as int) =~= all);
    }
    match found {
        Some(steps) => Ok(steps),
        None => Err("Get Schema(): wasn't able to successfully retrieve schema".to_owned()),
    }
}

/// Once a document has been refused, the lookup ends with that error however
/// many documents follow.
pub proof fn lemma_refusal_stays(files: Seq<SchemaFileView>, cmd: Seq<char>, upto: int)
    requires
        0 <= upto <= files.len(),
        resolve(files.take(upto), cmd) is Err,
    ensures
        resolve(files, cmd) == resolve(files.take(upto), cmd),
    decreases files.len() - upto,
{
    if upto < files.len() {
        assert(files.take(upto + 1).drop_last() =~= files.take(upto));
        lemma_refusal_stays(files, cmd, upto + 1);
    } else {
        assert(files.take(upto) =~= files);
    }
}

/// A document whose name has not the extension `json` contributes nothing:
/// put after any documents, it leaves what they give to every command as it
/// was.
pub proof fn law_other_documents_contribute_nothing(
    files: Seq<SchemaFileView>,
    file: SchemaFileView,
    cmd: Seq<char>,
)
    requires
        !has_json_extension(file.name),
    ensures
        resolve(files.push(file), cmd) == resolve(files, cmd),
        schema_steps(files.push(file), cmd) == schema_steps(files, cmd),
{
    assert(files.push(file).drop_last() =~= files);
}

/// The documents of schemas that are compiled into the library, as a
/// specification: the core schema first, then the sample schema.
pub open spec fn embedded_files() -> Seq<SchemaFileView> {
    seq![
        SchemaFileView { name: "core_schema.json"@, content: CORE_SCHEMA@ },
        SchemaFileView { name: "sample_schema.json"@, content: SAMPLE_SCHEMA@ },
    ]
}

/// The documents of schemas that are compiled into the library.
pub fn embedded_schemas() -> (files: Vec<SchemaFile>)
    ensures
        file_views(files@) == embedded_files(),
{
    let mut files: Vec<SchemaFile> = Vec::new();
    files.push(
        SchemaFile { name: "core_schema.json".to_owned(), content: CORE_SCHEMA.to_owned() },
    );
    files.push(
        SchemaFile { name: "sample_schema.json".to_owned(), content: SAMPLE_SCHEMA.to_owned() },
    );
    assert(file_views(files@) =~= embedded_files());
    files
}

/// The steps of the command `cmd` in the schemas that are compiled into the
/// library, or the error that says why there are none.
pub fn get_schema(cmd: &str) -> (r: Result<Vec<String>, String>)
    ensures
        match schema_steps(embedded_files(), cmd@) {
            Ok(steps) => r matches Ok(found) && texts(found@) == steps,
            Err(message) => r matches Err(e) && e@ == message,
        },
{
    let files = embedded_schemas();
    find_schema(&files, cmd)
}

impl Clone for NyaSchema {
    /// A copy with the same steps in the same order.
    fn clone(&self) -> (r: NyaSchema)
        ensures
            texts(r.steps@) == texts(self.steps@),
    {
        let mut steps: Vec<String> = Vec::new();
        let mut i: usize = 0;
        while i < self.steps.len()
            invariant
                i <= self.steps.len(),
                steps@.len() == i,
                forall|j: int| 0 <= j < i ==> steps@[j]@ == self.steps@[j]@,
            decreases self.steps.len() - i,
        {
            steps.push(self.steps[i].clone());
            i = i + 1;
        }
        assert(texts(steps@) =~= texts(self.steps@));
        NyaSchema { steps }
    }
}

impl NyaSchema {
    /// The schema of a command that the compiled-in schemas name.
    pub fn new(cmd: &str) -> (r: NyaSchema)
        requires
            schema_steps(embedded_files(), cmd@) is Ok,
        ensures
            schema_steps(embedded_files(), cmd@) == Ok::<Seq<Seq<char>>, Seq<char>>(
                texts(r.steps@),
            ),
    {
        match get_schema(cmd) {
            Ok(steps) => NyaSchema { steps },
            Err(_) => unreached(),
        }
    }

    /// The schema of the command `cmd`, where the compiled-in schemas name
    /// it; otherwise the error that says why there is none.
    pub fn load(cmd: &str) -> (r: Result<NyaSchema, String>)
        ensures
            match schema_steps(embedded_files(), cmd@) {
                Ok(steps) => r matches Ok(schema) && texts(schema.steps@) == steps,
                Err(message) => r matches Err(e) && e@ == message,
            },
    {
        match get_schema(cmd) {
            Ok(_) => Ok(NyaSchema::new(cmd)),
            Err(message) => Err(message),
        }
    }

    /// The schema of the command `cmd` in the given documents.
    pub fn from_files(files: &Vec<SchemaFile>, cmd: &str) -> (r: Result<NyaSchema, String>)
        ensures
            match schema_steps(file_views(files@), cmd@) {
                Ok(steps) => r matches Ok(schema) && texts(schema.steps@) == steps,
                Err(message) => r matches Err(e) && e@ == message,
            },
    {
        match find_schema(files, cmd) {
            Ok(steps) => Ok(NyaSchema { steps }),
            Err(message) => Err(message),
        }
    }
}

} // verus!
