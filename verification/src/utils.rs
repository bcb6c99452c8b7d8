//! Example nodes for the places where a deployment would call external
//! systems. The search placeholders write fixed example results; a real
//! integration performs its network call outside this library and hands
//! the state back through the same node shape.

use vstd::prelude::*;

use crate::node::Node;
use crate::store::Store;
use crate::value::{SpecValue, Value, lemma_deep_seq};

verus! {

/// The string under `key` in `m`, or the empty string when the key is
/// absent or not a string.
pub open spec fn str_at(m: Map<Seq<char>, SpecValue>, key: Seq<char>) -> Seq<char> {
    if m.contains_key(key) && m[key] is Str {
        m[key]->Str_0
    } else {
        ""@
    }
}

/// Reads the string under `key`, or the empty string.
fn read_str(store: &Store, key: &str) -> (r: String)
    ensures
        r@ == str_at(store@, key@),
{
    match store.get(key) {
        Some(v) => match v.as_str() {
            Some(s) => s.clone(),
            None => "".to_owned(),
        },
        None => "".to_owned(),
    }
}

/// The canned reply the mock model gives to a prompt.
pub open spec fn mock_response(prompt: Seq<char>) -> Seq<char> {
    "Mock response to: '"@ + prompt + "'"@
}

/// A stand-in for a model call: reads the prompt from the state and writes
/// a canned response.
#[derive(Clone)]
pub struct MockLlmNode;

impl Node<Store, Store> for MockLlmNode {
    open spec fn pre(&self, input: Store) -> bool {
        true
    }

    open spec fn post(&self, input: Store, output: Store) -> bool {
        output@ == input@.insert(
            "response"@,
            SpecValue::Str(mock_response(str_at(input@, "prompt"@))),
        )
    }

    fn call(&self, input: Store) -> (output: Store) {
        let mut store = input;
        let prompt = read_str(&store, "prompt");
        let mut response = "Mock response to: '".to_owned();
        response.append(prompt.as_str());
        response.append("'");
        store.set("response", Value::Str(response));
        store
    }
}

/// Creates the mock model node.
pub fn create_mock_llm_node() -> (n: MockLlmNode)
    ensures
        n == (MockLlmNode),
{
    MockLlmNode
}

/// Builds an array of two example strings.
fn two_strings(a: &str, b: &str) -> (r: Value)
    ensures
        r@ == SpecValue::Arr(seq![SpecValue::Str(a@), SpecValue::Str(b@)]),
{
    let mut items: Vec<Value> = Vec::new();
    items.push(Value::Str(a.to_owned()));
    items.push(Value::Str(b.to_owned()));
    proof {
        lemma_deep_seq(items@);
        assert(Value::deep_seq(items@)
            =~= seq![SpecValue::Str(a@), SpecValue::Str(b@)]);
    }
    Value::Arr(items)
}

/// A placeholder for a web-search call: reads the query and writes two
/// example results. A real integration would perform the network call
/// outside this library.
#[derive(Clone)]
pub struct GoogleSearchNode {
    /// The credential a real search call would use.
    pub api_key: String,
}

impl Node<Store, Store> for GoogleSearchNode {
    open spec fn pre(&self, input: Store) -> bool {
        true
    }

    open spec fn post(&self, input: Store, output: Store) -> bool {
        output@ == input@.insert(
            "search_results"@,
            SpecValue::Arr(
                seq![
                    SpecValue::Str("Example result 1"@),
                    SpecValue::Str("Example result 2"@),
                ],
            ),
        )
    }

    fn call(&self, input: Store) -> (output: Store) {
        let mut store = input;
        let _query = read_str(&store, "query");
        let results = two_strings("Example result 1", "Example result 2");
        store.set("search_results", results);
        store
    }
}

/// Creates the search placeholder node.
pub fn create_google_search_node(api_key: String) -> (n: GoogleSearchNode)
    ensures
        n.api_key == api_key,
{
    GoogleSearchNode { api_key }
}

/// A placeholder for a vector-database lookup: writes two example
/// documents. A real integration would query the database outside this
/// library.
#[derive(Clone)]
pub struct VectorSearchNode;

impl Node<Store, Store> for VectorSearchNode {
    open spec fn pre(&self, input: Store) -> bool {
        true
    }

    open spec fn post(&self, input: Store, output: Store) -> bool {
        output@ == input@.insert(
            "similar_docs"@,
            SpecValue::Arr(
                seq![
                    SpecValue::Str("Similar document 1"@),
                    SpecValue::Str("Similar document 2"@),
                ],
            ),
        )
    }

    fn call(&self, input: Store) -> (output: Store) {
        let mut store = input;
        let results = two_strings("Similar document 1", "Similar document 2");
        store.set("similar_docs", results);
        store
    }
}

/// Creates the vector-search placeholder node.
pub fn create_vector_search_node() -> (n: VectorSearchNode)
    ensures
        n == (VectorSearchNode),
{
    VectorSearchNode
}

/// `s` cut into pieces of `n` characters; the last piece may be shorter.
pub open spec fn spec_chunks(s: Seq<char>, n: int) -> Seq<Seq<char>>
    decreases s.len(),
    when n >= 1
{
    if s.len() == 0 {
        Seq::empty()
    } else if s.len() <= n {
        seq![s]
    } else {
        seq![s.take(n)] + spec_chunks(s.skip(n), n)
    }
}

/// String values for a sequence of character sequences.
pub open spec fn strs_of(cs: Seq<Seq<char>>) -> Seq<SpecValue> {
    Seq::new(cs.len(), |i: int| SpecValue::Str(cs[i]))
}

/// Splits the string under the text key into chunks of a fixed number of
/// characters and writes them as an array of strings.
#[derive(Clone)]
pub struct ChunkingNode {
    /// How many characters one chunk holds.
    pub chunk_size: usize,
}

impl Node<Store, Store> for ChunkingNode {
    open spec fn pre(&self, input: Store) -> bool {
        self.chunk_size >= 1
    }

    open spec fn post(&self, input: Store, output: Store) -> bool {
        output@ == input@.insert(
            "chunks"@,
            SpecValue::Arr(strs_of(spec_chunks(str_at(input@, "text"@), self.chunk_size as int))),
        )
    }

    fn call(&self, input: Store) -> (output: Store) {
        let mut store = input;
        let text = read_str(&store, "text");
        let text_str = text.as_str();
        let n = self.chunk_size;
        let len = text_str.unicode_len();
        let ghost full = text_str@;
        let mut chunks: Vec<Value> = Vec::new();
        let mut i: usize = 0;
        proof {
            assert(full.skip(0) =~= full);
            assert(Value::deep_seq(chunks@) =~= Seq::<SpecValue>::empty());
            if 0 < len {
                assert(Value::deep_seq(chunks@) + strs_of(spec_chunks(full, n as int))
                    =~= strs_of(spec_chunks(full, n as int)));
            }
        }
        while i < len
            invariant
                n >= 1,
                i <= len,
                len == full.len(),
                text_str@ == full,
                i < len ==> Value::deep_seq(chunks@) + strs_of(spec_chunks(full.skip(i as int), n as int))
                    =~= strs_of(spec_chunks(full, n as int)),
                i == len ==> Value::deep_seq(chunks@) =~= strs_of(spec_chunks(full, n as int)),
            decreases len - i,
        {
            let end = if len - i > n {
                i + n
            } else {
                len
            };
            let piece = text_str.substring_char(i, end);
            let ghost old_chunks = chunks@;
            chunks.push(Value::Str(piece.to_owned()));
            proof {
                let rest = full.skip(i as int);
                assert(rest.len() == len - i);
                assert(chunks@.drop_last() =~= old_chunks);
                lemma_deep_seq(chunks@);
                lemma_deep_seq(old_chunks);
                assert(chunks@.last()@ == SpecValue::Str(piece@));
                assert(Value::deep_seq(chunks@)
                    =~= Value::deep_seq(old_chunks).push(SpecValue::Str(piece@)));
                if end < len {
                    assert(piece@ =~= rest.take(n as int));
                    assert(full.skip(end as int) =~= rest.skip(n as int));
                    assert(spec_chunks(rest, n as int)
                        == seq![rest.take(n as int)] + spec_chunks(rest.skip(n as int), n as int));
                    assert(strs_of(spec_chunks(rest, n as int))
                        =~= seq![SpecValue::Str(piece@)]
                            + strs_of(spec_chunks(full.skip(end as int), n as int)));
                    assert(Value::deep_seq(chunks@)
                        + strs_of(spec_chunks(full.skip(end as int), n as int))
                        =~= strs_of(spec_chunks(full, n as int)));
                } else {
                    assert(piece@ =~= rest);
                    assert(rest.len() <= n);
                    assert(spec_chunks(rest, n as int) == seq![rest]);
                    assert(strs_of(spec_chunks(rest, n as int))
                        =~= seq![SpecValue::Str(piece@)]);
                    assert(Value::deep_seq(chunks@) =~= strs_of(spec_chunks(full, n as int)));
                }
            }
            i = end;
        }
        proof {
            if full.len() == 0 {
                assert(spec_chunks(full, n as int) =~= Seq::<Seq<char>>::empty());
                assert(Value::deep_seq(chunks@) =~= strs_of(spec_chunks(full, n as int)));
            }
        }
        store.set("chunks", Value::Arr(chunks));
        store
    }
}

/// Creates a chunking node; one chunk holds `chunk_size` characters.
pub fn create_chunking_node(chunk_size: usize) -> (n: ChunkingNode)
    ensures
        n.chunk_size == chunk_size,
{
    ChunkingNode { chunk_size }
}

} // verus!
