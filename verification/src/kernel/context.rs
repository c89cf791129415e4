//! The execution context: the one mapping from keys to structured values
//! through which handlers pass data from step to step.
use vstd::prelude::*;
use vstd::pervasive::unreached;
use crate::codec::{parse, parsed_text};
use crate::json::{
    entries_map, entries_of, keys_of, lemma_object_view, lemma_put_is_insert, lookup, put, Entries,
    Json, JsonView, Member,
};
use vstd::string::StringExecFns;
use crate::text::{join2, lemma_last_index_is, lemma_last_index_none, same_text};

verus! {

/// The mapping from string keys to values that lives as long as one run.
///
/// Keys are unique in the mapping, and a `set` overwrites what was there.
pub struct NyaContext {
    context: Vec<Member>,
}

impl View for NyaContext {
    type V = Map<Seq<char>, JsonView>;

    closed spec fn view(&self) -> Map<Seq<char>, JsonView> {
        entries_map(entries_of(self.context@))
    }
}

/// What a context answers for `key`: the stored value, or null where the key
/// is absent.
pub open spec fn value_at(context: Map<Seq<char>, JsonView>, key: Seq<char>) -> JsonView {
    if context.contains_key(key) {
        context[key]
    } else {
        JsonView::Null
    }
}

/// The context that a configuration file's content gives, or the message of
/// the error that refuses it. The content must be JSON text that denotes an
/// object; the object's entries are the context.
pub open spec fn context_of(content: Seq<char>) -> Result<Map<Seq<char>, JsonView>, Seq<char>> {
    match parsed_text(content) {
        Ok(JsonView::Object(entries)) => Ok(entries_map(entries)),
        Ok(_) => Err("Failed to parse context: the document is not a JSON object"@),
        Err(message) => Err("Failed to parse context: "@ + message),
    }
}

impl NyaContext {
    /// The context with no key.
    pub fn empty() -> (r: NyaContext)
        ensures
            r@ == Map::<Seq<char>, JsonView>::empty(),
    {
        let r = NyaContext { context: Vec::new() };
        assert(r@ =~= Map::<Seq<char>, JsonView>::empty());
        r
    }

    /// The context made of the entries of a configuration document, which
    /// must be an object.
    pub fn new(document: Json) -> (r: NyaContext)
        requires
            document@ is Object,
        ensures
            r@ == entries_map(document@->Object_0),
    {
        match document {
            Json::Object(entries) => {
                proof {
                    lemma_object_view(entries);
                }
                NyaContext { context: entries }
            },
            _ => unreached(),
        }
    }

    /// The value stored under `key`, or null where the key is absent.
    pub fn get(&self, key: &str) -> (r: Json)
        ensures
            r@ == value_at(self@, key@),
    {
        let mut i: usize = self.context.len();
        while i > 0
            invariant
                i <= self.context.len(),
                forall|j: int| i <= j < self.context.len() ==> self.context@[j].key@ != key@,
            decreases i,
        {
            i = i - 1;
            if same_text(self.context[i].key.as_str(), key) {
                proof {
                    lemma_last_index_is(keys_of(entries_of(self.context@)), key@, i as int);
                }
                return self.context[i].value.clone();
            }
        }
        proof {
            lemma_last_index_none(keys_of(entries_of(self.context@)), key@);
        }
        Json::Null
    }

    /// Stores `value` under `key`, in place of what was stored there. Every
    /// other key keeps its value.
    pub fn set(&mut self, key: &str, value: Json)
        ensures
            final(self)@ == old(self)@.insert(key@, value@),
    {
        let ghost before = entries_of(self.context@);
        let ghost stored = value@;
        let mut i: usize = self.context.len();
        while i > 0
            invariant
                i <= self.context.len(),
                entries_of(self.context@) == before,
                entries_map(before) == old(self)@,
                value@ == stored,
                forall|j: int| i <= j < self.context.len() ==> self.context@[j].key@ != key@,
            decreases i,
        {
            i = i - 1;
            if same_text(self.context[i].key.as_str(), key) {
                proof {
                    lemma_last_index_is(keys_of(before), key@, i as int);
                    lemma_put_is_insert(before, key@, stored);
                }
                self.context.set(i, Member { key: key.to_owned(), value });
                assert(entries_of(self.context@) =~= put(before, key@, stored));
                return ;
            }
        }
        proof {
            lemma_last_index_none(keys_of(before), key@);
            lemma_put_is_insert(before, key@, stored);
        }
        self.context.push(Member { key: key.to_owned(), value });
        assert(entries_of(self.context@) =~= put(before, key@, stored));
    }

    /// Stores the outcome of converting a value for `key`: a value that was
    /// converted is stored as `set` stores it, and one that could not be
    /// converted is dropped, with the context left as it was.
    pub fn set_converted(&mut self, key: &str, converted: Option<Json>)
        ensures
            final(self)@ == match converted {
                Some(value) => old(self)@.insert(key@, value@),
                None => old(self)@,
            },
    {
        match converted {
            Some(value) => self.set(key, value),
            None => {},
        }
    }
}

/// Builds the context from the content of a configuration file.
///
/// `Ok` exactly when the content is JSON text that denotes an object; the
/// error says why the content was refused.
pub fn get_context(content: &str) -> (r: Result<NyaContext, String>)
    ensures
        match context_of(content@) {
            Ok(context) => r matches Ok(c) && c@ == context,
            Err(message) => r matches Err(e) && e@ == message,
        },
{
    match parse(content) {
        Ok(document) => {
            if document.is_object() {
                Ok(NyaContext::new(document))
            } else {
                Err("Failed to parse context: the document is not a JSON object".to_owned())
            }
        },
        Err(message) => Err(join2("Failed to parse context: ", message.as_str())),
    }
}

/// The message of a configuration file that could not be read.
pub fn read_failure(path: &str, reason: &str) -> (r: String)
    ensures
        r@ == "Failed to read context file '"@ + path@ + "': "@ + reason@,
{
    let mut out = join2("Failed to read context file '", path);
    out.append("': ");
    out.append(reason);
    out
}

/// What a context made from a configuration document answers: for a key of
/// the document the value that the document gives it, and null for any other
/// key.
pub proof fn law_context_answers(content: Seq<char>, entries: Entries, key: Seq<char>)
    requires
        parsed_text(content) == Ok::<JsonView, Seq<char>>(JsonView::Object(entries)),
    ensures
        context_of(content) matches Ok(context) && value_at(context, key) == match lookup(
            entries,
            key,
        ) {
            Some(value) => value,
            None => JsonView::Null,
        },
{
}

/// A value that was set is the value that is got, whatever was stored before;
/// and setting one key changes the answer for no other key.
pub proof fn law_set_then_get(
    context: Map<Seq<char>, JsonView>,
    key: Seq<char>,
    value: JsonView,
    other: Seq<char>,
)
    ensures
        value_at(context.insert(key, value), key) == value,
        other != key ==> value_at(context.insert(key, value), other) == value_at(context, other),
{
}

} // verus!
