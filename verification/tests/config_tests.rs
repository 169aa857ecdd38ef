use reasonkit::config::{
    FusionStrategy, HybridConfig, MemoryConfig, RaptorOptConfig, RetrievalConfig,
};

#[test]
fn test_retrieval_config_defaults() {
    let config = RetrievalConfig::default();

    assert_eq!(config.top_k, 10);
    assert!((config.alpha_hundredths as f64 / 100.0 - 0.7).abs() < 0.001); // Default dense weight
    assert!(!config.use_raptor);
}

#[test]
fn test_fusion_strategies() {
    // RRF fusion
    let rrf = FusionStrategy::ReciprocalRankFusion { k: 60 };

    // Weighted sum
    let weighted = FusionStrategy::WeightedSum { dense_weight_hundredths: 70 };

    // Verify strategy configuration
    match rrf {
        FusionStrategy::ReciprocalRankFusion { k } => assert_eq!(k, 60),
        _ => panic!("Expected RRF strategy"),
    }

    match weighted {
        FusionStrategy::WeightedSum { dense_weight_hundredths } => {
            assert!((dense_weight_hundredths as f64 / 100.0 - 0.7).abs() < 0.001);
        }
        _ => panic!("Expected WeightedSum strategy"),
    }
}

#[test]
fn test_configuration_defaults() {
    let config = MemoryConfig::default();

    assert_eq!(config.chunk_size, 512);
    assert_eq!(config.chunk_overlap, 50);
    assert_eq!(config.max_context_tokens, 4096);
    assert_eq!(config.embedding_dimensions, 384);
}

#[test]
fn test_hybrid_config() {
    let config = HybridConfig::default();

    assert!((config.vector_weight_hundredths as f64 / 100.0 - 0.7).abs() < 0.001);
    assert!((config.bm25_weight_hundredths as f64 / 100.0 - 0.3).abs() < 0.001);
    assert!(config.use_reranker);
}

#[test]
fn test_raptor_config_defaults() {
    let config = RaptorOptConfig::default();

    assert!(config.max_depth > 0);
    assert!(config.cluster_size > 0);
}
