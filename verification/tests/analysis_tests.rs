use rust_for_web::analysis::{
    analysis_inputs, analyze_article, analyze_article_in_worker, analyze_articles_sequential,
    count_words, is_whitespace_char, AnalysisResponse, ArticleAnalysis,
    ParallelTiming,
};

#[test]
fn counts_words_separated_by_any_whitespace() {
    assert_eq!(count_words("hello world"), 2);
    assert_eq!(count_words("  leading and trailing  "), 3);
    assert_eq!(count_words("tabs\tand\nnewlines\r\nhere"), 4);
    assert_eq!(count_words(""), 0);
    assert_eq!(count_words("   \t\n "), 0);
    assert_eq!(count_words("one"), 1);
}

#[test]
fn counts_like_split_whitespace_on_unicode_spaces() {
    let samples = [
        "a\u{00A0}b",
        "mot\u{3000}mot",
        "x\u{2003}y\u{2028}z",
        "caf\u{e9} cr\u{e8}me",
        "\u{1680}lead",
        "no-break\u{202F}narrow",
        "zero\u{200B}width",
    ];
    for s in samples.iter() {
        assert_eq!(count_words(s), s.split_whitespace().count(), "{:?}", s);
    }
}

#[test]
fn whitespace_test_matches_char_is_whitespace() {
    for u in 0u32..0x3100 {
        if let Some(c) = char::from_u32(u) {
            assert_eq!(is_whitespace_char(c), c.is_whitespace(), "{:#x}", u);
        }
    }
}

#[test]
fn sequential_analysis_keeps_order_and_ids() {
    let articles = vec![
        (3, "Contenu du premier article".to_string()),
        (7, String::new()),
        (-1, "un  deux".to_string()),
    ];
    let r = analyze_articles_sequential(articles);
    assert_eq!(
        r,
        vec![
            ArticleAnalysis { id: 3, word_count: 4 },
            ArticleAnalysis { id: 7, word_count: 0 },
            ArticleAnalysis { id: -1, word_count: 2 },
        ]
    );
    assert!(analyze_articles_sequential(Vec::new()).is_empty());
}

#[test]
fn single_article_analysis() {
    assert_eq!(analyze_article(9, "a b c"), ArticleAnalysis { id: 9, word_count: 3 });
}

#[test]
fn worker_result_carries_id_and_no_count() {
    assert_eq!(analyze_article_in_worker(5), ArticleAnalysis { id: 5, word_count: 0 });
}

#[test]
fn missing_content_reads_as_empty() {
    let rows = vec![(1, Some("text here".to_string())), (2, None)];
    let inputs = analysis_inputs(&rows);
    assert_eq!(inputs, vec![(1, "text here".to_string()), (2, String::new())]);
}

#[test]
fn report_totals_the_parallel_phases() {
    let timing = ParallelTiming {
        results: vec![ArticleAnalysis { id: 1, word_count: 0 }],
        spawn_time_ms: 12,
        execution_time_ms: 30,
    };
    assert_eq!(timing.total_ms(), 42);
    let report = AnalysisResponse::from_runs(vec![ArticleAnalysis { id: 1, word_count: 4 }], 55, timing);
    assert_eq!(report.parallel_total_ms, 42);
    assert_eq!(report.parallel_spawn_ms, 12);
    assert_eq!(report.parallel_execution_ms, 30);
    assert_eq!(report.sequential_duration_ms, 55);
    assert_eq!(report.sequential_results, vec![ArticleAnalysis { id: 1, word_count: 4 }]);
    assert_eq!(report.parallel_results, vec![ArticleAnalysis { id: 1, word_count: 0 }]);
}
