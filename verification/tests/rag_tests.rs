use reasonkit::rag::{Chunk, RagConfig, RagPipeline, SearchResult};

fn result_with_text(text: &str) -> SearchResult {
    SearchResult { chunk: Chunk { text: text.to_string() } }
}

#[test]
fn test_rag_config_default() {
    let config = RagConfig::default();
    assert_eq!(config.max_context_tokens, 4096);
    assert!(config.include_citations);
}

#[test]
fn test_rag_pipeline_creation() {
    let pipeline = RagPipeline::new(RagConfig::default());
    assert_eq!(pipeline.config.max_context_tokens, 4096);
}

#[test]
fn assemble_context_formats_and_numbers_chunks() {
    let pipeline = RagPipeline::new(RagConfig::default());
    let results = vec![
        result_with_text("alpha beta"),
        result_with_text("gamma"),
        result_with_text("delta epsilon zeta"),
    ];
    let ctx = pipeline.assemble_context(results);
    assert_eq!(ctx.context, "[1] alpha beta\n\n[2] gamma\n\n[3] delta epsilon zeta\n\n");
    assert_eq!(ctx.token_count, 6);
    assert_eq!(ctx.sources.len(), 3);
}

#[test]
fn assemble_context_without_citations() {
    let mut config = RagConfig::default();
    config.include_citations = false;
    let pipeline = RagPipeline::new(config);
    let ctx = pipeline.assemble_context(vec![result_with_text("one two"), result_with_text("three")]);
    assert_eq!(ctx.context, "one two\n\nthree\n\n");
    assert_eq!(ctx.token_count, 3);
}

#[test]
fn assemble_context_counts_tokens_not_characters() {
    // "a b c" holds three tokens but five characters: with a budget of
    // three tokens it must still be included.
    let mut config = RagConfig::default();
    config.max_context_tokens = 3;
    let pipeline = RagPipeline::new(config);
    let ctx = pipeline.assemble_context(vec![result_with_text("a b c"), result_with_text("d e")]);
    assert_eq!(ctx.context, "[1] a b c\n\n");
    assert_eq!(ctx.token_count, 3);
    assert_eq!(ctx.sources.len(), 2);
}

#[test]
fn assemble_context_stops_at_first_overflowing_chunk() {
    // Assembly is greedy in rank order: a later chunk that would fit is
    // not considered once an earlier one has overflowed the budget.
    let mut config = RagConfig::default();
    config.max_context_tokens = 2;
    let pipeline = RagPipeline::new(config);
    let ctx = pipeline.assemble_context(vec![
        result_with_text("a"),
        result_with_text("b c d e"),
        result_with_text("f"),
    ]);
    assert_eq!(ctx.context, "[1] a\n\n");
    assert_eq!(ctx.token_count, 1);
}

#[test]
fn assemble_context_of_nothing_is_empty() {
    let pipeline = RagPipeline::new(RagConfig::default());
    let ctx = pipeline.assemble_context(Vec::new());
    assert_eq!(ctx.context, "");
    assert_eq!(ctx.token_count, 0);
    assert!(ctx.sources.is_empty());
}

#[test]
fn assemble_context_numbers_past_nine() {
    let mut config = RagConfig::default();
    config.max_context_tokens = 100;
    let pipeline = RagPipeline::new(config);
    let results: Vec<SearchResult> = (0..12).map(|_| result_with_text("w")).collect();
    let ctx = pipeline.assemble_context(results);
    assert!(ctx.context.contains("[10] w"));
    assert!(ctx.context.contains("[12] w"));
    assert_eq!(ctx.token_count, 12);
}
