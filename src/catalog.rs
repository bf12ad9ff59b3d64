use vstd::prelude::*;
use vstd::string::StringExecFns;

verus! {

/// Batch size that suits each known embedding model; 100 for the others.
pub open spec fn default_batch_size(m: Seq<char>) -> usize {
    if m == "clip/ViT-B-32-textual"@ {
        2000
    } else if m == "clip/ViT-B-32-visual"@ {
        50
    } else if m == "BAAI/bge-small-en"@ {
        300
    } else if m == "BAAI/bge-base-en"@ {
        100
    } else if m == "BAAI/bge-large-en"@ {
        60
    } else if m == "jinaai/jina-embeddings-v2-small-en"@ {
        500
    } else if m == "jinaai/jina-embeddings-v2-base-en"@ {
        80
    } else if m == "intfloat/e5-base-v2"@ {
        300
    } else if m == "intfloat/e5-large-v2"@ {
        100
    } else if m == "llmrails/ember-v1"@ {
        100
    } else if m == "thenlper/gte-base"@ {
        1000
    } else if m == "thenlper/gte-large"@ {
        800
    } else if m == "microsoft/all-MiniLM-L12-v2"@ {
        1000
    } else if m == "microsoft/all-mpnet-base-v2"@ {
        400
    } else if m == "transformers/multi-qa-mpnet-base-dot-v1"@ {
        300
    } else if m == "openai/text-embedding-ada-002"@ {
        500
    } else if m == "openai/text-embedding-3-small"@ {
        500
    } else if m == "openai/text-embedding-3-large"@ {
        500
    } else if m == "cohere/embed-english-v3.0"@ || m == "cohere/embed-multilingual-v3.0"@ || m == "cohere/embed-english-light-v3.0"@ || m == "cohere/embed-multilingual-light-v3.0"@ || m == "cohere/embed-english-v2.0"@ || m == "cohere/embed-english-light-v2.0"@ || m == "cohere/embed-multilingual-v2.0"@ {
        5000
    } else {
        100
    }
}

fn same_text(a: &String, b: &str) -> (r: bool)
    ensures
        r == (a@ == b@),
{
    let other = b.to_owned();
    *a == other
}

/// Default number of rows per batch for `model`.
pub fn get_default_batch_size(model: &str) -> (r: usize)
    ensures
        r == default_batch_size(model@),
{
    let m = model.to_owned();
    if same_text(&m, "clip/ViT-B-32-textual") {
        2000
    } else if same_text(&m, "clip/ViT-B-32-visual") {
        50
    } else if same_text(&m, "BAAI/bge-small-en") {
        300
    } else if same_text(&m, "BAAI/bge-base-en") {
        100
    } else if same_text(&m, "BAAI/bge-large-en") {
        60
    } else if same_text(&m, "jinaai/jina-embeddings-v2-small-en") {
        500
    } else if same_text(&m, "jinaai/jina-embeddings-v2-base-en") {
        80
    } else if same_text(&m, "intfloat/e5-base-v2") {
        300
    } else if same_text(&m, "intfloat/e5-large-v2") {
        100
    } else if same_text(&m, "llmrails/ember-v1") {
        100
    } else if same_text(&m, "thenlper/gte-base") {
        1000
    } else if same_text(&m, "thenlper/gte-large") {
        800
    } else if same_text(&m, "microsoft/all-MiniLM-L12-v2") {
        1000
    } else if same_text(&m, "microsoft/all-mpnet-base-v2") {
        400
    } else if same_text(&m, "transformers/multi-qa-mpnet-base-dot-v1") {
        300
    } else if same_text(&m, "openai/text-embedding-ada-002") {
        500
    } else if same_text(&m, "openai/text-embedding-3-small") {
        500
    } else if same_text(&m, "openai/text-embedding-3-large") {
        500
    } else if same_text(&m, "cohere/embed-english-v3.0")
        || same_text(&m, "cohere/embed-multilingual-v3.0")
        || same_text(&m, "cohere/embed-english-light-v3.0")
        || same_text(&m, "cohere/embed-multilingual-light-v3.0")
        || same_text(&m, "cohere/embed-english-v2.0")
        || same_text(&m, "cohere/embed-english-light-v2.0")
        || same_text(&m, "cohere/embed-multilingual-v2.0") {
        5000
    } else {
        100
    }
}

/// Names separated by newlines.
pub open spec fn joined_lines(names: Seq<Seq<char>>) -> Seq<char>
    decreases names.len(),
{
    if names.len() == 0 {
        Seq::empty()
    } else if names.len() == 1 {
        names[0]
    } else {
        joined_lines(names.drop_last()) + seq!['\n'] + names.last()
    }
}

/// Names joined by newlines, then one final newline (a lone newline when
/// there are no names).
pub open spec fn listing(names: Seq<Seq<char>>) -> Seq<char> {
    joined_lines(names) + seq!['\n']
}

/// The text listing the available runtimes: their names joined by newlines,
/// with a final newline.
pub fn show_available_runtimes(runtimes: &Vec<String>) -> (r: String)
    ensures
        r@ == listing(runtimes@.map_values(|s: String| s@)),
{
    let ghost names = runtimes@.map_values(|s: String| s@);
    let mut out = String::new();
    let mut i: usize = 0;
    while i < runtimes.len()
        invariant
            i <= runtimes@.len(),
            names == runtimes@.map_values(|s: String| s@),
            out@ == joined_lines(names.take(i as int)),
        decreases runtimes@.len() - i,
    {
        let ghost before = out@;
        proof {
            reveal_strlit("\n");
        }
        if i > 0 {
            out.append("\n");
        }
        let ghost mid = out@;
        let name = runtimes[i].as_str();
        out.append(name);
        proof {
            let v = names.take(i as int + 1);
            assert(v.drop_last() =~= names.take(i as int));
            assert(v.last() == runtimes@[i as int]@);
            assert(out@ == mid + runtimes@[i as int]@);
            if i == 0 {
                assert(names.take(0) =~= Seq::<Seq<char>>::empty());
                assert(v[0] == v.last());
                assert(out@ =~= joined_lines(v));
            } else {
                assert(mid == before + seq!['\n']);
                assert(out@ =~= joined_lines(v));
            }
        }
        i = i + 1;
    }
    proof {
        assert(names.take(names.len() as int) =~= names);
        reveal_strlit("\n");
    }
    out.append("\n");
    out
}

} // verus!
