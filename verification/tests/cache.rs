use pine_sema::cache::{
    AnalysisInput, CompileCache, CompileCacheKey, CompileCacheStats, LibrarySource, SourceFile,
    LEGACY_TRANSLATOR_REVISION,
};

#[test]
fn key_carries_legacy_translator_revision() {
    let input = AnalysisInput::new(SourceFile::new("cache.pine", "//@version=6\n"));
    let key = CompileCacheKey::from_input(&input);
    assert_eq!(key.translator_revision(), LEGACY_TRANSLATOR_REVISION);
}

#[test]
fn keys_of_equal_inputs_are_the_same_and_differ_otherwise() {
    let a = CompileCacheKey::from_input(&AnalysisInput::new(SourceFile::new("a.pine", "x = 1")));
    let b = CompileCacheKey::from_input(&AnalysisInput::new(SourceFile::new("a.pine", "x = 1")));
    let c = CompileCacheKey::from_input(&AnalysisInput::new(SourceFile::new("a.pine", "x = 2")));
    let d = CompileCacheKey::from_input(&AnalysisInput::new(SourceFile::new("b.pine", "x = 1")));
    assert!(a.same_as(&b));
    assert!(!a.same_as(&c));
    assert!(!a.same_as(&d));
    let with_library = CompileCacheKey::from_input(&AnalysisInput::with_library_sources(
        SourceFile::new("a.pine", "x = 1"),
        vec![LibrarySource::new("user/lib/1", SourceFile::new("lib.pine", "export f() => 1"))],
    ));
    assert!(!a.same_as(&with_library));
}

#[test]
fn a_repeated_input_is_answered_from_the_cache() {
    let mut cache: CompileCache<usize> = CompileCache::new();
    let input = AnalysisInput::new(SourceFile::new("main.pine", "plot(close)"));
    let first = cache.analyze_input(&input, |i: &AnalysisInput| i.root().text().len());
    let second = cache.analyze_input(&input, |_: &AnalysisInput| 999);
    assert_eq!(first, 11);
    assert_eq!(second, 11);
    assert_eq!(
        cache.stats(),
        CompileCacheStats {
            entries: 1,
            hits: 1,
            misses: 1
        }
    );
}

#[test]
fn distinct_inputs_are_each_analyzed_once() {
    let mut cache: CompileCache<String> = CompileCache::new();
    let a = SourceFile::new("a.pine", "plot(open)");
    let b = SourceFile::new("b.pine", "plot(high)");
    let ra = cache.analyze(&a, |i: &AnalysisInput| i.root().name().to_owned());
    let rb = cache.analyze(&b, |i: &AnalysisInput| i.root().name().to_owned());
    let ra2 = cache.analyze(&a, |_: &AnalysisInput| "recomputed".to_owned());
    assert_eq!(ra, "a.pine");
    assert_eq!(rb, "b.pine");
    assert_eq!(ra2, "a.pine");
    let stats = cache.stats();
    assert_eq!(stats.entries, 2);
    assert_eq!(stats.hits, 1);
    assert_eq!(stats.misses, 2);
}

#[test]
fn clearing_forgets_every_analysis_and_counter() {
    let mut cache: CompileCache<u32> = CompileCache::new();
    let input = AnalysisInput::new(SourceFile::new("main.pine", "x = 1"));
    cache.analyze_input(&input, |_: &AnalysisInput| 1);
    cache.analyze_input(&input, |_: &AnalysisInput| 2);
    cache.clear();
    assert_eq!(
        cache.stats(),
        CompileCacheStats {
            entries: 0,
            hits: 0,
            misses: 0
        }
    );
    assert_eq!(cache.analyze_input(&input, |_: &AnalysisInput| 3), 3);
}

#[test]
fn a_source_analyzed_alone_shares_its_key_with_the_same_input() {
    let mut cache: CompileCache<u8> = CompileCache::new();
    let source = SourceFile::new("main.pine", "x = 1");
    cache.analyze(&source, |_: &AnalysisInput| 7);
    let input = AnalysisInput::new(SourceFile::new("main.pine", "x = 1"));
    assert_eq!(cache.analyze_input(&input, |_: &AnalysisInput| 8), 7);
    assert_eq!(cache.stats().hits, 1);
}

#[test]
fn analyze_and_analyze_input_of_the_same_source_agree() {
    let analysis = |input: &AnalysisInput| input.root().text().len();
    let mut by_source: CompileCache<usize> = CompileCache::new();
    let mut by_input: CompileCache<usize> = CompileCache::new();
    for text in ["x = 1", "y = 22", "x = 1"] {
        let source = SourceFile::new("a.pine", text);
        let a = by_source.analyze(&source, analysis);
        let b = by_input.analyze_input(&AnalysisInput::new(SourceFile::new("a.pine", text)), analysis);
        assert_eq!(a, b);
        assert_eq!(by_source.stats(), by_input.stats());
    }
    assert_eq!(by_source.stats(), CompileCacheStats { entries: 2, hits: 1, misses: 2 });
}

#[test]
fn cached_results_equal_a_fresh_analysis() {
    let analysis = |i: &AnalysisInput| format!("{}:{}", i.root().name(), i.root().text().len());
    let mut cache: CompileCache<String> = CompileCache::new();
    let source = SourceFile::new("main.pine", "plot(close)");
    let via_source = cache.analyze(&source, analysis);
    let same_key = AnalysisInput::new(SourceFile::new("main.pine", "plot(close)"));
    let via_input = cache.analyze_input(&same_key, analysis);
    assert_eq!(via_source, analysis(&same_key));
    assert_eq!(via_input, analysis(&same_key));
    assert_eq!(cache.stats(), CompileCacheStats { entries: 1, hits: 1, misses: 1 });
}
