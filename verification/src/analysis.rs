use vstd::prelude::*;

verus! {

broadcast use vstd::string::group_string_axioms;

/// Unicode `White_Space` property, which is what `char::is_whitespace` tests.
pub open spec fn is_white_space(c: char) -> bool {
    let u = c as u32;
    ||| 0x09 <= u <= 0x0D
    ||| u == 0x20
    ||| u == 0x85
    ||| u == 0xA0
    ||| u == 0x1680
    ||| 0x2000 <= u <= 0x200A
    ||| u == 0x2028
    ||| u == 0x2029
    ||| u == 0x202F
    ||| u == 0x205F
    ||| u == 0x3000
}

/// Position `i` of `s` begins a word: it holds a non-whitespace character
/// that is first in `s` or follows whitespace.
pub open spec fn starts_word(s: Seq<char>, i: int) -> bool {
    &&& !is_white_space(s[i])
    &&& (i == 0 || is_white_space(s[i - 1]))
}

/// Number of maximal runs of non-whitespace characters in `s`, that is the
/// number of items `str::split_whitespace` yields.
pub open spec fn word_count(s: Seq<char>) -> nat
    decreases s.len(),
{
    if s.len() == 0 {
        0
    } else {
        word_count(s.drop_last()) + if starts_word(s, s.len() - 1) { 1nat } else { 0nat }
    }
}

/// `s` is non-empty and its last character is not whitespace.
pub open spec fn ends_inside_word(s: Seq<char>) -> bool {
    s.len() > 0 && !is_white_space(s[s.len() - 1])
}

/// `s` is non-empty and its first character is not whitespace.
pub open spec fn begins_inside_word(s: Seq<char>) -> bool {
    s.len() > 0 && !is_white_space(s[0])
}

/// Empty text has no word; a single character is one word unless it is
/// whitespace.
pub proof fn lemma_word_count_small(c: char)
    ensures
        word_count(Seq::<char>::empty()) == 0,
        word_count(seq![c]) == if is_white_space(c) { 0nat } else { 1nat },
{
    assert(seq![c].drop_last() =~= Seq::<char>::empty());
}

/// Counting the words of two pieces of text and adding the counts gives the
/// count of their concatenation, except that a word cut in two at the seam
/// (non-whitespace on both sides) is counted once. With the single-character
/// cases this fixes the count: only whitespace separates words.
pub proof fn lemma_word_count_concat(a: Seq<char>, b: Seq<char>)
    ensures
        word_count(a + b) + (if ends_inside_word(a) && begins_inside_word(b) { 1nat } else { 0nat })
            == word_count(a) + word_count(b),
    decreases b.len(),
{
    if b.len() == 0 {
        assert(a + b =~= a);
    } else {
        let b1 = b.drop_last();
        lemma_word_count_concat(a, b1);
        assert((a + b).drop_last() =~= a + b1);
        let n = (a + b).len();
        assert((a + b)[n - 1] == b[b.len() - 1]);
        if b.len() == 1 {
            assert(b1 =~= Seq::<char>::empty());
            assert(a + b1 =~= a);
            if a.len() > 0 {
                assert((a + b)[n - 2] == a[a.len() - 1]);
            }
        } else {
            assert((a + b)[n - 2] == b[b.len() - 2]);
            assert(b1[0] == b[0]);
        }
    }
}

/// Inserting a non-whitespace character inside a word does not change the
/// count: punctuation such as an apostrophe never splits a word.
pub proof fn lemma_word_count_inner_character(a: Seq<char>, c: char, b: Seq<char>)
    requires
        ends_inside_word(a),
        begins_inside_word(b),
        !is_white_space(c),
    ensures
        word_count(a + seq![c] + b) == word_count(a + b),
{
    lemma_word_count_concat(a, seq![c]);
    lemma_word_count_concat(a + seq![c], b);
    lemma_word_count_concat(a, b);
    lemma_word_count_small(c);
    let ac = a + seq![c];
    assert(ac[ac.len() - 1] == c);
}

/// Exact test of the `White_Space` property.
pub fn is_whitespace_char(c: char) -> (r: bool)
    ensures
        r == is_white_space(c),
{
    let u = c as u32;
    (0x09 <= u && u <= 0x0D) || u == 0x20 || u == 0x85 || u == 0xA0 || u == 0x1680 || (0x2000
        <= u && u <= 0x200A) || u == 0x2028 || u == 0x2029 || u == 0x202F || u == 0x205F || u
        == 0x3000
}

pub proof fn lemma_word_count_bounded(s: Seq<char>)
    ensures
        word_count(s) <= s.len(),
    decreases s.len(),
{
    if s.len() > 0 {
        lemma_word_count_bounded(s.drop_last());
    }
}

/// Counts the whitespace-separated words of `content`.
pub fn count_words(content: &str) -> (n: usize)
    ensures
        n == word_count(content@),
{
    let len = content.unicode_len();
    let mut count: usize = 0;
    let mut after_space = true;
    let ghost s = content@;
    for c in it: content.chars()
        invariant
            len == s.len(),
            it.seq() == s,
            count == word_count(s.take(it.index())),
            count <= it.index(),
            after_space == (it.index() == 0 || is_white_space(s[it.index() - 1])),
    {
        let ghost k = it.index();
        assert(s.take(k + 1).drop_last() =~= s.take(k));
        proof {
            lemma_word_count_bounded(s.take(k));
        }
        let ws = is_whitespace_char(c);
        if !ws && after_space {
            count = count + 1;
        }
        after_space = ws;
    }
    assert(s.take(s.len() as int) =~= s);
    count
}


/// Word count of one article.
#[derive(Debug, Clone, Copy, PartialEq, Eq, Structural)]
pub struct ArticleAnalysis {
    pub id: i32,
    pub word_count: usize,
}

/// Results of the threaded analysis together with the two measured phases.
#[derive(Debug)]
pub struct ParallelTiming {
    pub results: Vec<ArticleAnalysis>,
    pub spawn_time_ms: u128,
    pub execution_time_ms: u128,
}

/// The body of the comparison report: both result lists and the timings.
#[derive(Debug)]
pub struct AnalysisResponse {
    pub sequential_results: Vec<ArticleAnalysis>,
    pub parallel_results: Vec<ArticleAnalysis>,
    pub sequential_duration_ms: u128,
    pub parallel_total_ms: u128,
    pub parallel_spawn_ms: u128,
    pub parallel_execution_ms: u128,
}

/// Analyses one article: its id and the number of its words.
pub fn analyze_article(id: i32, content: &str) -> (r: ArticleAnalysis)
    ensures
        r.id == id,
        r.word_count == word_count(content@),
{
    ArticleAnalysis { id, word_count: count_words(content) }
}

/// What one worker thread of the threaded analysis hands back: the id, with a
/// word count that the worker leaves at zero (it never counts).
pub fn analyze_article_in_worker(id: i32) -> (r: ArticleAnalysis)
    ensures
        r.id == id,
        r.word_count == 0,
{
    ArticleAnalysis { id, word_count: 0 }
}

/// Analyses the articles one after the other, keeping their order.
pub fn analyze_articles_sequential(articles: Vec<(i32, String)>) -> (r: Vec<ArticleAnalysis>)
    ensures
        r.len() == articles.len(),
        forall|i: int|
            0 <= i < articles.len() ==> (#[trigger] r[i]).id == articles[i].0
                && r[i].word_count == word_count(articles[i].1@),
{
    let mut out: Vec<ArticleAnalysis> = Vec::new();
    let n = articles.len();
    for k in 0..n
        invariant
            n == articles.len(),
            out.len() == k,
            forall|i: int|
                0 <= i < k ==> (#[trigger] out[i]).id == articles[i].0
                    && out[i].word_count == word_count(articles[i].1@),
    {
        let a = analyze_article(articles[k].0, articles[k].1.as_str());
        out.push(a);
    }
    out
}

/// Pairs each article id with its content, an absent content read as empty.
pub fn analysis_inputs(rows: &Vec<(i32, Option<String>)>) -> (r: Vec<(i32, String)>)
    ensures
        r.len() == rows.len(),
        forall|i: int|
            0 <= i < rows.len() ==> {
                &&& (#[trigger] r[i]).0 == rows[i].0
                &&& r[i].1@ == match rows[i].1 {
                    Some(c) => c@,
                    None => Seq::<char>::empty(),
                }
            },
{
    let mut out: Vec<(i32, String)> = Vec::new();
    for k in 0..rows.len()
        invariant
            out.len() == k,
            forall|i: int|
                0 <= i < k ==> {
                    &&& (#[trigger] out[i]).0 == rows[i].0
                    &&& out[i].1@ == match rows[i].1 {
                        Some(c) => c@,
                        None => Seq::<char>::empty(),
                    }
                },
    {
        let content = match &rows[k].1 {
            Some(c) => c.clone(),
            None => String::new(),
        };
        out.push((rows[k].0, content));
    }
    out
}

impl ParallelTiming {
    /// Whole duration of the threaded run: spawning plus waiting.
    pub fn total_ms(&self) -> (t: u128)
        requires
            self.spawn_time_ms + self.execution_time_ms <= u128::MAX,
        ensures
            t == self.spawn_time_ms + self.execution_time_ms,
    {
        self.spawn_time_ms + self.execution_time_ms
    }
}

impl AnalysisResponse {
    /// Assembles the report of a sequential run and a threaded run.
    pub fn from_runs(
        sequential_results: Vec<ArticleAnalysis>,
        sequential_duration_ms: u128,
        parallel: ParallelTiming,
    ) -> (r: AnalysisResponse)
        requires
            parallel.spawn_time_ms + parallel.execution_time_ms <= u128::MAX,
        ensures
            r.sequential_results@ == sequential_results@,
            r.parallel_results@ == parallel.results@,
            r.sequential_duration_ms == sequential_duration_ms,
            r.parallel_total_ms == parallel.spawn_time_ms + parallel.execution_time_ms,
            r.parallel_spawn_ms == parallel.spawn_time_ms,
            r.parallel_execution_ms == parallel.execution_time_ms,
    {
        let total = parallel.total_ms();
        AnalysisResponse {
            parallel_spawn_ms: parallel.spawn_time_ms,
            parallel_execution_ms: parallel.execution_time_ms,
            parallel_results: parallel.results,
            sequential_results,
            parallel_total_ms: total,
            sequential_duration_ms,
        }
    }
}

} // verus!
