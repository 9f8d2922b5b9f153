//! Whole scans, run against a small registry that scores texts by the words
//! they share.

use license_scan::{
    Analysis, LicenseType, Scan, ScanAction, ScanError, ScanEvent, ScanResult, ScanStrategy, Score,
};

fn score_of(value: f32) -> Score {
    Score::from_bits(value.to_bits())
}

fn value_of(score: Score) -> f32 {
    f32::from_bits(score.to_bits())
}

fn words_of(lines: &[String]) -> Vec<String> {
    let mut words = Vec::new();
    for line in lines {
        for word in line.split_whitespace() {
            words.push(word.to_string());
        }
    }
    words
}

/// Twice the number of shared words over the number of all words.
fn similarity(left: &[String], right: &[String]) -> f32 {
    let mut unused: Vec<&String> = right.iter().collect();
    let mut shared = 0usize;
    for word in left {
        if let Some(at) = unused.iter().position(|other| *other == word) {
            unused.swap_remove(at);
            shared += 1;
        }
    }
    let total = left.len() + right.len();
    if total == 0 {
        0.0
    } else {
        (2 * shared) as f32 / total as f32
    }
}

struct Text {
    lines: Vec<String>,
    view: (usize, usize),
}

impl Text {
    fn new(content: &str) -> Text {
        let lines: Vec<String> = content.split('\n').map(|line| line.to_string()).collect();
        let view = (0, lines.len());
        Text { lines, view }
    }

    fn viewed(&self) -> &[String] {
        &self.lines[self.view.0..self.view.1]
    }

    fn optimize_bounds(&self, license: &[String]) -> (Text, f32) {
        let mut best = (self.view.0, self.view.0 + 1);
        let mut best_score = -1.0f32;
        for start in self.view.0..self.view.1 {
            for end in start + 1..=self.view.1 {
                let score = similarity(&words_of(&self.lines[start..end]), license);
                if score > best_score {
                    best = (start, end);
                    best_score = score;
                }
            }
        }
        (Text { lines: self.lines.clone(), view: best }, best_score)
    }

    fn lines_view(&self) -> (usize, usize) {
        self.view
    }

    fn white_out(&self) -> Text {
        let mut lines = self.lines.clone();
        for line in &mut lines[self.view.0..self.view.1] {
            line.clear();
        }
        let view = (0, lines.len());
        Text { lines, view }
    }
}

struct Registry {
    licenses: Vec<(String, Vec<String>)>,
}

impl Registry {
    fn new() -> Registry {
        Registry { licenses: Vec::new() }
    }

    fn add_license(&mut self, name: &str, text: &str) {
        let words = words_of(&Text::new(text).lines);
        self.licenses.push((name.to_string(), words));
    }

    fn analyze(&self, text: &Text) -> Option<(Analysis, Vec<String>)> {
        let words = words_of(text.viewed());
        let mut best: Option<(Analysis, Vec<String>)> = None;
        for (name, license) in &self.licenses {
            let score = similarity(&words, license);
            let better = match &best {
                Some((held, _)) => score > value_of(held.score),
                None => true,
            };
            if better {
                let analysis =
                    Analysis { score: score_of(score), name: name.clone(), kind: LicenseType::Text };
                best = Some((analysis, license.clone()));
            }
        }
        best
    }
}

fn event_of(answer: Option<(Analysis, Vec<String>)>, license: &mut Vec<String>) -> ScanEvent {
    match answer {
        Some((analysis, words)) => {
            *license = words;
            ScanEvent::Analyzed(analysis)
        }
        None => ScanEvent::QueryFailed,
    }
}

/// Runs one scan to its end and counts what the scan asked for.
fn scan_counting(
    strategy: &ScanStrategy,
    registry: &Registry,
    text: &Text,
) -> (Result<ScanResult, ScanError>, usize, usize) {
    let mut state = Scan::new();
    let mut working = Text { lines: text.lines.clone(), view: text.view };
    let mut narrowed = Text { lines: text.lines.clone(), view: text.view };
    let mut license: Vec<String> = Vec::new();
    let mut queries = 0usize;
    let mut narrowings = 0usize;
    loop {
        let event = match state.action() {
            ScanAction::Analyze => {
                queries += 1;
                event_of(registry.analyze(&working), &mut license)
            }
            ScanAction::Narrow => {
                narrowings += 1;
                let (optimized, score) = working.optimize_bounds(&license);
                let line_range = optimized.lines_view();
                narrowed = optimized;
                ScanEvent::Narrowed { score: score_of(score), line_range }
            }
            ScanAction::MaskAndAnalyze => {
                queries += 1;
                working = narrowed.white_out();
                event_of(registry.analyze(&working), &mut license)
            }
            ScanAction::Stop => break,
        };
        state = strategy.scan(state, event);
    }
    (state.into_outcome().expect("the scan is over"), queries, narrowings)
}

fn scan(strategy: &ScanStrategy, registry: &Registry, text: &Text) -> Result<ScanResult, ScanError> {
    scan_counting(strategy, registry, text).0
}

fn create_dummy_store() -> Registry {
    let mut store = Registry::new();
    store.add_license("license-1", "aaaaa\nbbbbb\nccccc");
    store.add_license("license-2", "1234 5678 1234\n0000\n1010101010\n\n8888 9999");
    store
}

const GIBBERISH: &str = "lorem\nipsum abc def ghi jkl\n1234 5678 1234\n0000\n1010101010\n\n8888 9999\nwhatsit hello\narst neio qwfp colemak is the best keyboard layout";

const GIBBERISH_AND_LICENSE: &str = "lorem\nipsum abc def ghi jkl\n1234 5678 1234\n0000\n1010101010\n\n8888 9999\nwhatsit hello\narst neio qwfp colemak is the best keyboard layout\naaaaa\nbbbbb\nccccc";

#[test]
fn can_construct() {
    ScanStrategy::new();
    ScanStrategy::new().confidence_threshold(score_of(0.5));
    let strategy = ScanStrategy::new().shallow_limit(score_of(0.99)).optimize(true).max_passes(100);
    assert_eq!(strategy.max_passes, 100);
    assert!(strategy.optimize);
}

#[test]
fn shallow_scan() {
    let store = create_dummy_store();
    let test_data = Text::new("lorem ipsum\naaaaa bbbbb\nccccc\nhello");

    let strategy =
        ScanStrategy::new().confidence_threshold(score_of(0.5)).shallow_limit(score_of(0.0));
    let result = scan(&strategy, &store, &test_data).unwrap();
    assert!(
        value_of(result.score) > 0.5,
        "score must meet threshold; was {}",
        value_of(result.score)
    );
    assert_eq!(result.license.expect("result has a license").name, "license-1");

    let strategy =
        ScanStrategy::new().confidence_threshold(score_of(0.8)).shallow_limit(score_of(0.0));
    let result = scan(&strategy, &store, &test_data).unwrap();
    assert!(result.license.is_none(), "result license is None");
}

#[test]
fn single_optimize() {
    let store = create_dummy_store();
    let test_data = Text::new(GIBBERISH);

    let strategy = ScanStrategy::new()
        .confidence_threshold(score_of(0.5))
        .optimize(true)
        .shallow_limit(score_of(1.0));
    let result = scan(&strategy, &store, &test_data).unwrap();
    assert!(result.license.is_none(), "result license is None");
    assert_eq!(result.containing.len(), 1);
    let contained = &result.containing[0];
    assert_eq!(contained.license.name, "license-2");
    assert!(value_of(contained.score) > 0.5, "contained score is greater than threshold");
}

#[test]
fn find_multiple_licenses() {
    let store = create_dummy_store();
    let test_data = Text::new(GIBBERISH_AND_LICENSE);

    let strategy = ScanStrategy::new()
        .confidence_threshold(score_of(0.5))
        .optimize(true)
        .shallow_limit(score_of(1.0));
    let result = scan(&strategy, &store, &test_data).unwrap();
    assert!(result.license.is_none(), "result license is None");
    assert_eq!(result.containing.len(), 2);

    let mut found1 = 0;
    let mut found2 = 0;
    for (_, ref contained) in result.containing.iter().enumerate() {
        match contained.license.name.as_ref() {
            "license-1" => {
                assert!(value_of(contained.score) > 0.5, "license-1 score meets threshold");
                found1 += 1;
            }
            "license-2" => {
                assert!(value_of(contained.score) > 0.5, "license-2 score meets threshold");
                found2 += 1;
            }
            _ => {
                panic!("somehow got an unknown license name");
            }
        }
    }

    assert!(found1 == 1 && found2 == 1, "found both licenses exactly once");
}

#[test]
fn overall_score_is_that_of_the_first_analysis() {
    let store = create_dummy_store();
    let strategy = ScanStrategy::new()
        .confidence_threshold(score_of(0.5))
        .optimize(true)
        .shallow_limit(score_of(1.0));

    // 3 shared words, 6 in the document and 3 in the license
    let result =
        scan(&strategy, &store, &Text::new("lorem ipsum\naaaaa bbbbb\nccccc\nhello")).unwrap();
    assert_eq!(value_of(result.score), 6.0 / 9.0);

    // 7 shared words, 24 in the document and 7 in the license
    let result = scan(&strategy, &store, &Text::new(GIBBERISH)).unwrap();
    assert_eq!(value_of(result.score), 14.0 / 31.0);
    assert_eq!(value_of(result.containing[0].score), 1.0);
}

#[test]
fn contained_results_come_in_the_order_found_with_their_lines() {
    let store = create_dummy_store();
    let strategy = ScanStrategy::new()
        .confidence_threshold(score_of(0.5))
        .optimize(true)
        .shallow_limit(score_of(1.0));
    let text = Text::new(GIBBERISH_AND_LICENSE);
    let result = scan(&strategy, &store, &text).unwrap();
    assert_eq!(result.containing.len(), 2);
    assert_eq!(result.containing[0].license.name, "license-2");
    assert_eq!(result.containing[0].license.kind, LicenseType::Text);
    assert_eq!(result.containing[0].line_range, (2, 7));
    assert_eq!(result.containing[1].license.name, "license-1");
    assert_eq!(result.containing[1].line_range, (9, 12));
    for contained in &result.containing {
        let (start, end) = contained.line_range;
        assert!(start < end && end <= text.lines.len());
        assert!(value_of(contained.score) >= 0.5);
    }
}

#[test]
fn score_lies_in_unit_range() {
    let store = create_dummy_store();
    let strategy = ScanStrategy::new().confidence_threshold(score_of(0.5)).optimize(true);
    for content in ["", "aaaaa\nbbbbb\nccccc", GIBBERISH, GIBBERISH_AND_LICENSE] {
        let result = scan(&strategy, &store, &Text::new(content)).unwrap();
        assert!(result.score.within_unit_range());
        assert!((0.0..=1.0).contains(&value_of(result.score)));
    }
}

#[test]
fn license_is_named_exactly_above_the_threshold() {
    let store = create_dummy_store();
    let text = Text::new("lorem ipsum\naaaaa bbbbb\nccccc\nhello");
    for threshold in [0.0f32, 0.3, 0.5, 0.66, 6.0 / 9.0, 0.67, 0.8, 1.0] {
        let strategy = ScanStrategy::new().confidence_threshold(score_of(threshold));
        let result = scan(&strategy, &store, &text).unwrap();
        assert_eq!(result.license.is_some(), value_of(result.score) > threshold);
    }
}

#[test]
fn nothing_is_contained_without_optimize() {
    let store = create_dummy_store();
    let strategy = ScanStrategy::new()
        .confidence_threshold(score_of(0.5))
        .optimize(false)
        .shallow_limit(score_of(1.0));
    let (result, queries, narrowings) =
        scan_counting(&strategy, &store, &Text::new(GIBBERISH_AND_LICENSE));
    assert!(result.unwrap().containing.is_empty());
    assert_eq!((queries, narrowings), (1, 0));
}

#[test]
fn contained_results_are_bounded_by_max_passes() {
    let store = create_dummy_store();
    let text = Text::new(GIBBERISH_AND_LICENSE);
    let strategy = ScanStrategy::new()
        .confidence_threshold(score_of(0.5))
        .optimize(true)
        .shallow_limit(score_of(1.0));

    let (result, queries, narrowings) = scan_counting(&strategy.max_passes(1), &store, &text);
    let result = result.unwrap();
    assert_eq!(result.containing.len(), 1);
    assert_eq!(result.containing[0].license.name, "license-2");
    // the last pass still masks and asks the registry once more
    assert_eq!((queries, narrowings), (2, 1));

    let (result, queries, narrowings) = scan_counting(&strategy.max_passes(0), &store, &text);
    assert!(result.unwrap().containing.is_empty());
    assert_eq!((queries, narrowings), (1, 0));

    let (result, queries, narrowings) = scan_counting(&strategy.max_passes(2), &store, &text);
    assert_eq!(result.unwrap().containing.len(), 2);
    assert_eq!((queries, narrowings), (3, 2));

    let (result, queries, narrowings) = scan_counting(&strategy.max_passes(10), &store, &text);
    assert_eq!(result.unwrap().containing.len(), 2);
    assert_eq!((queries, narrowings), (3, 3));
}

#[test]
fn conclusive_match_skips_the_search() {
    let store = create_dummy_store();
    let text = Text::new("lorem ipsum\naaaaa bbbbb\nccccc\nhello");
    let strategy = ScanStrategy::new()
        .confidence_threshold(score_of(0.5))
        .shallow_limit(score_of(0.6))
        .optimize(true);
    let (result, queries, narrowings) = scan_counting(&strategy, &store, &text);
    let result = result.unwrap();
    assert_eq!(result.license.unwrap().name, "license-1");
    assert!(result.containing.is_empty());
    assert_eq!((queries, narrowings), (1, 0));
}

#[test]
fn shallow_limit_below_threshold_does_not_end_an_unreported_match() {
    let store = create_dummy_store();
    let text = Text::new("lorem ipsum\naaaaa bbbbb\nccccc\nhello");
    let strategy = ScanStrategy::new()
        .confidence_threshold(score_of(0.8))
        .shallow_limit(score_of(0.0))
        .optimize(true);
    let (result, _, narrowings) = scan_counting(&strategy, &store, &text);
    let result = result.unwrap();
    assert!(value_of(result.score) > 0.0);
    assert!(result.license.is_none());
    assert_eq!(result.containing.len(), 1);
    assert_eq!(result.containing[0].line_range, (1, 3));
    assert_eq!(narrowings, 2);
}

#[test]
fn empty_registry_fails_the_scan() {
    let store = Registry::new();
    let strategy = ScanStrategy::new().optimize(true);
    let (result, queries, narrowings) = scan_counting(&strategy, &store, &Text::new(GIBBERISH));
    assert_eq!(result, Err(ScanError::QueryFailed));
    assert_eq!((queries, narrowings), (1, 0));
}

#[test]
fn same_scan_twice_gives_the_same_result() {
    let store = create_dummy_store();
    let strategy = ScanStrategy::new()
        .confidence_threshold(score_of(0.5))
        .optimize(true)
        .shallow_limit(score_of(1.0));
    let text = Text::new(GIBBERISH_AND_LICENSE);
    let first = scan(&strategy, &store, &text).unwrap();
    let second = scan(&strategy, &store, &text).unwrap();
    assert_eq!(first, second);
    assert_eq!(first.score.to_bits(), second.score.to_bits());
}
