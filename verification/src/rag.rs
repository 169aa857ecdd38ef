//! Retrieval-context assembly.
//!
//! Retrieved chunks are concatenated, in rank order, into one context
//! string until a token budget is exhausted: chunks are taken greedily and
//! assembly stops at the first chunk whose tokens would push the running
//! total past the budget. Each included chunk may be prefixed with a
//! bracketed one-based citation number, and every chunk is followed by a
//! blank line.

use vstd::prelude::*;
use vstd::string::*;

use crate::config::RetrievalConfig;
use crate::text::{decimal_rep, u64_decimal};

verus! {

/// A chunk of a source document, as retrieval returns it.
#[derive(Debug)]
pub struct Chunk {
    /// The chunk's text.
    pub text: String,
}

/// One retrieval hit: the chunk that matched.
#[derive(Debug)]
pub struct SearchResult {
    /// The matching chunk.
    pub chunk: Chunk,
}

/// Configuration of the assembly pipeline.
#[derive(Clone, Copy, Debug)]
pub struct RagConfig {
    /// How the underlying retrieval is tuned.
    pub retrieval: RetrievalConfig,
    /// Token budget for the assembled context.
    pub max_context_tokens: usize,
    /// Whether each included chunk is prefixed with a citation marker.
    pub include_citations: bool,
}

impl Default for RagConfig {
    /// Default retrieval tuning, a 4096-token context window, citations on.
    fn default() -> (r: RagConfig)
        ensures
            r.retrieval.top_k == 10,
            r.retrieval.alpha_hundredths == 70,
            !r.retrieval.use_raptor,
            r.max_context_tokens == 4096,
            r.include_citations,
    {
        RagConfig {
            retrieval: RetrievalConfig::default(),
            max_context_tokens: 4096,
            include_citations: true,
        }
    }
}

/// A context assembled from retrieved chunks.
#[derive(Debug)]
pub struct RagContext {
    /// The chunks that fit the budget, formatted as one string.
    pub context: String,
    /// Every retrieval hit the assembly was given, included or not.
    pub sources: Vec<SearchResult>,
    /// Tokens spent by the included chunks.
    pub token_count: usize,
}

/// Number of whitespace-separated tokens in a text.
pub uninterp spec fn whitespace_tokens(s: Seq<char>) -> nat;

/// Relies on `str::split_whitespace`: the number of whitespace-separated
/// tokens, which depends on the characters alone.
#[verifier::external_body]
fn count_whitespace_tokens(s: &str) -> (r: usize)
    ensures
        r as nat == whitespace_tokens(s@),
{
    s.split_whitespace().count()
}

/// The citation marker put before chunk `i` (zero-based): its one-based
/// number in brackets, then a space.
pub open spec fn citation_prefix(i: int) -> Seq<char> {
    seq!['['] + decimal_rep(i + 1) + seq![']', ' ']
}

/// What chunk `i` contributes to the context: an optional citation marker,
/// the text, and a blank line.
pub open spec fn chunk_piece(text: Seq<char>, i: int, cite: bool) -> Seq<char> {
    (if cite {
        citation_prefix(i)
    } else {
        Seq::empty()
    }) + text + seq!['\n', '\n']
}

/// The texts of a list of retrieval hits, in order.
pub open spec fn texts_of(results: Seq<SearchResult>) -> Seq<Seq<char>> {
    results.map(|i: int, r: SearchResult| r.chunk.text@)
}

/// Tokens spent by the first `k` chunks.
pub open spec fn prefix_tokens(texts: Seq<Seq<char>>, k: int) -> int
    decreases k,
{
    if k <= 0 {
        0
    } else {
        prefix_tokens(texts, k - 1) + whitespace_tokens(texts[k - 1])
    }
}

/// The context assembled from the first `k` chunks.
pub open spec fn assembled_text(texts: Seq<Seq<char>>, k: int, cite: bool) -> Seq<char>
    decreases k,
{
    if k <= 0 {
        Seq::empty()
    } else {
        assembled_text(texts, k - 1, cite) + chunk_piece(texts[k - 1], k - 1, cite)
    }
}

/// How many leading chunks the greedy assembly takes, continuing from
/// chunk `i` with `used` tokens already spent: it stops at the first chunk
/// whose tokens would push the total past the budget.
pub open spec fn greedy_take(texts: Seq<Seq<char>>, budget: int, i: int, used: int) -> int
    decreases texts.len() - i,
{
    if i < 0 || i >= texts.len() {
        i
    } else if used + whitespace_tokens(texts[i]) > budget {
        i
    } else {
        greedy_take(texts, budget, i + 1, used + whitespace_tokens(texts[i]))
    }
}

/// The assembly pipeline.
pub struct RagPipeline {
    /// How this pipeline assembles context.
    pub config: RagConfig,
}

impl RagPipeline {
    /// A pipeline with the given configuration.
    pub fn new(config: RagConfig) -> (r: RagPipeline)
        ensures
            r.config == config,
    {
        RagPipeline { config }
    }

    /// Assemble a context from retrieval hits: chunks are taken in rank
    /// order until the first whose tokens would exceed the budget, each
    /// formatted as its piece — citation marker (when configured), text,
    /// blank line. All hits are kept as sources, included or not.
    pub fn assemble_context(&self, results: Vec<SearchResult>) -> (r: RagContext)
        ensures
            r.sources@ == results@,
            r.token_count == prefix_tokens(
                texts_of(results@),
                greedy_take(texts_of(results@), self.config.max_context_tokens as int, 0, 0),
            ),
            r.context@ == assembled_text(
                texts_of(results@),
                greedy_take(texts_of(results@), self.config.max_context_tokens as int, 0, 0),
                self.config.include_citations,
            ),
    {
        let budget = self.config.max_context_tokens;
        let cite = self.config.include_citations;
        let ghost texts = texts_of(results@);
        let mut context = String::new();
        let mut tokens_used: usize = 0;
        let mut i: usize = 0;
        while i < results.len()
            invariant
                texts == texts_of(results@),
                i <= results@.len(),
                tokens_used <= budget,
                tokens_used == prefix_tokens(texts, i as int),
                context@ == assembled_text(texts, i as int, cite),
                greedy_take(texts, budget as int, 0, 0) == greedy_take(
                    texts,
                    budget as int,
                    i as int,
                    tokens_used as int,
                ),
            ensures
                i <= results@.len(),
                tokens_used == prefix_tokens(texts, i as int),
                context@ == assembled_text(texts, i as int, cite),
                greedy_take(texts, budget as int, 0, 0) == i,
            decreases results@.len() - i,
        {
            let chunk_text: &String = &results[i].chunk.text;
            let chunk_tokens = count_whitespace_tokens(chunk_text.as_str());
            assert(texts[i as int] == chunk_text@);
            if chunk_tokens > budget - tokens_used {
                // This chunk does not fit: the greedy take ends here.
                assert(greedy_take(texts, budget as int, i as int, tokens_used as int)
                    == i as int);
                break;
            }
            proof {
                reveal_strlit("[");
                reveal_strlit("] ");
                reveal_strlit("\n\n");
                assert("["@ =~= seq!['[']);
                assert("] "@ =~= seq![']', ' ']);
                assert("\n\n"@ =~= seq!['\n', '\n']);
            }
            if cite {
                context.append("[");
                let number = u64_decimal((i + 1) as u64);
                context.append(number.as_str());
                context.append("] ");
            }
            context.append(chunk_text.as_str());
            context.append("\n\n");
            proof {
                assert(context@ =~= assembled_text(texts, i as int, cite) + chunk_piece(
                    texts[i as int],
                    i as int,
                    cite,
                ));
                assert(assembled_text(texts, i as int + 1, cite) == assembled_text(
                    texts,
                    i as int,
                    cite,
                ) + chunk_piece(texts[i as int], i as int, cite));
                assert(prefix_tokens(texts, i as int + 1) == prefix_tokens(texts, i as int)
                    + whitespace_tokens(texts[i as int]));
                assert(greedy_take(texts, budget as int, i as int, tokens_used as int)
                    == greedy_take(
                    texts,
                    budget as int,
                    i as int + 1,
                    tokens_used as int + whitespace_tokens(texts[i as int]),
                ));
            }
            tokens_used = tokens_used + chunk_tokens;
            i = i + 1;
        }
        RagContext { context, sources: results, token_count: tokens_used }
    }
}

} // verus!
