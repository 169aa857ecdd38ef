//! Configuration surfaces of the retrieval and service layers.
//!
//! Weights that the wider system treats as unit fractions are carried here
//! as integer hundredths (70 stands for 0.70), so that every comparison on
//! them is exact.

use vstd::prelude::*;

verus! {

/// How multi-stage retrieval is tuned.
#[derive(Clone, Copy, Debug)]
pub struct RetrievalConfig {
    /// Number of results requested per search.
    pub top_k: usize,
    /// Weight of the dense (vector) score in hundredths; the sparse score
    /// carries the remainder.
    pub alpha_hundredths: u64,
    /// Whether hierarchical-tree retrieval is enabled.
    pub use_raptor: bool,
}

impl Default for RetrievalConfig {
    /// Ten results, dense weight 0.70, hierarchical retrieval off.
    fn default() -> (r: RetrievalConfig)
        ensures
            r.top_k == 10,
            r.alpha_hundredths == 70,
            !r.use_raptor,
    {
        RetrievalConfig { top_k: 10, alpha_hundredths: 70, use_raptor: false }
    }
}

/// How dense and sparse result lists are fused into one ranking.
#[derive(Clone, Copy, Debug)]
pub enum FusionStrategy {
    /// Reciprocal-rank fusion with smoothing constant `k`.
    ReciprocalRankFusion { k: u64 },
    /// A weighted sum of the two scores; the dense weight is given in
    /// hundredths, the sparse side carries the remainder.
    WeightedSum { dense_weight_hundredths: u64 },
}

/// Tuning of the memory service: chunking, context and embedding sizes.
#[derive(Clone, Copy, Debug)]
pub struct MemoryConfig {
    /// Tokens per chunk when a document is split.
    pub chunk_size: usize,
    /// Tokens shared between neighbouring chunks.
    pub chunk_overlap: usize,
    /// Largest context handed to a consumer, in tokens.
    pub max_context_tokens: usize,
    /// Dimensionality of the embedding vectors.
    pub embedding_dimensions: usize,
}

impl Default for MemoryConfig {
    /// 512-token chunks overlapping by 50, a 4096-token context window,
    /// 384-dimensional embeddings.
    fn default() -> (r: MemoryConfig)
        ensures
            r.chunk_size == 512,
            r.chunk_overlap == 50,
            r.max_context_tokens == 4096,
            r.embedding_dimensions == 384,
    {
        MemoryConfig {
            chunk_size: 512,
            chunk_overlap: 50,
            max_context_tokens: 4096,
            embedding_dimensions: 384,
        }
    }
}

/// How hybrid search weighs its two retrievers.
#[derive(Clone, Copy, Debug)]
pub struct HybridConfig {
    /// Weight of the vector retriever, in hundredths.
    pub vector_weight_hundredths: u64,
    /// Weight of the keyword retriever, in hundredths.
    pub bm25_weight_hundredths: u64,
    /// Whether a reranking stage runs over the fused list.
    pub use_reranker: bool,
}

impl HybridConfig {
    /// The two weights split the whole: they sum to one hundred hundredths.
    pub open spec fn wf(self) -> bool {
        self.vector_weight_hundredths + self.bm25_weight_hundredths == 100
    }
}

impl Default for HybridConfig {
    /// Vector weight 0.70, keyword weight 0.30, reranker on.
    fn default() -> (r: HybridConfig)
        ensures
            r.wf(),
            r.vector_weight_hundredths == 70,
            r.bm25_weight_hundredths == 30,
            r.use_reranker,
    {
        HybridConfig {
            vector_weight_hundredths: 70,
            bm25_weight_hundredths: 30,
            use_reranker: true,
        }
    }
}

/// Tuning of hierarchical-tree construction.
#[derive(Clone, Copy, Debug)]
pub struct RaptorOptConfig {
    /// Largest depth the tree is built to.
    pub max_depth: usize,
    /// Number of children clustered under one summary node.
    pub cluster_size: usize,
}

impl Default for RaptorOptConfig {
    /// A tree of at most five levels, clustering ten children per node.
    fn default() -> (r: RaptorOptConfig)
        ensures
            r.max_depth == 5,
            r.cluster_size == 10,
            r.max_depth > 0,
            r.cluster_size > 0,
    {
        RaptorOptConfig { max_depth: 5, cluster_size: 10 }
    }
}

} // verus!
