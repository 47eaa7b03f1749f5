use magika::config::ModelConfig;
use magika::content::{ContentType, CONTENT_TYPE_COUNT};
use magika::file::{batch_input, classify, path_ruling, SCORE_ONE};
use magika::{Error, Features, FileType, InferredType, OverwriteReason};

fn key(x: f32) -> u32 {
    x.to_bits()
}

fn labels() -> Vec<ContentType> {
    vec![
        ContentType::Shell,
        ContentType::Html,
        ContentType::Python,
        ContentType::Javascript,
        ContentType::Txt,
        ContentType::Zip,
    ]
}

fn config() -> ModelConfig {
    let mut thresholds = vec![key(0.5); CONTENT_TYPE_COUNT];
    thresholds[ContentType::Python.index()] = key(0.9);
    let mut overwrite_map: Vec<ContentType> =
        (0..CONTENT_TYPE_COUNT).map(ContentType::from_index).collect();
    overwrite_map[ContentType::Javascript.index()] = ContentType::Html;
    ModelConfig {
        beg_size: 4,
        mid_size: 0,
        end_size: 4,
        use_inputs_at_offsets: false,
        min_file_size_for_dl: 2,
        padding_token: 256,
        block_size: 8,
        thresholds,
        overwrite_map,
        target_labels: labels(),
    }
}

fn row(best: usize, score: f32) -> Vec<u32> {
    let mut r = vec![key(0.01); 6];
    r[best] = key(score);
    r
}

fn inferred(x: &FileType) -> InferredType {
    match x {
        FileType::Inferred(i) => *i,
        _ => panic!("not inferred"),
    }
}

#[test]
fn confident_shell_is_reported_as_shell() {
    let cfg = config();
    let r = classify(&cfg, &row(0, 0.97), 0);
    assert_eq!(r.inferred_type, ContentType::Shell);
    assert_eq!(r.content_type, None);
    assert_eq!(r.content_type(), ContentType::Shell);
    assert_eq!(r.score, key(0.97));
    assert!(r.score >= cfg.threshold(ContentType::Shell));
}

#[test]
fn confident_html_is_reported_as_html() {
    let r = classify(&config(), &row(1, 0.8), 0);
    assert_eq!(r.content_type(), ContentType::Html);
}

#[test]
fn low_confidence_text_type_becomes_txt() {
    let r = classify(&config(), &row(2, 0.7), 0);
    assert_eq!(r.inferred_type, ContentType::Python);
    assert_eq!(r.content_type, Some((ContentType::Txt, OverwriteReason::LowConfidence)));
}

#[test]
fn low_confidence_binary_type_becomes_unknown() {
    let r = classify(&config(), &row(5, 0.3), 0);
    assert_eq!(r.inferred_type, ContentType::Zip);
    assert_eq!(r.content_type, Some((ContentType::Unknown, OverwriteReason::LowConfidence)));
}

#[test]
fn low_confidence_txt_keeps_no_reason() {
    let r = classify(&config(), &row(4, 0.3), 0);
    assert_eq!(r.inferred_type, ContentType::Txt);
    assert_eq!(r.content_type, None);
}

#[test]
fn overwrite_map_redirects_confident_type() {
    let r = classify(&config(), &row(3, 0.8), 0);
    assert_eq!(r.inferred_type, ContentType::Javascript);
    assert_eq!(r.content_type, Some((ContentType::Html, OverwriteReason::OverwriteMap)));
}

#[test]
fn threshold_is_inclusive() {
    let r = classify(&config(), &row(2, 0.9), 0);
    assert_eq!(r.content_type, None);
    assert_eq!(r.inferred_type, ContentType::Python);
}

#[test]
fn ties_go_to_the_earliest_output() {
    let scores = vec![key(0.1), key(0.4), key(0.2), key(0.4), key(0.4), key(0.0)];
    let r = classify(&config(), &scores, 0);
    assert_eq!(r.inferred_type, ContentType::Html);
}

#[test]
fn convert_classifies_each_row() {
    let cfg = config();
    let mut output = row(0, 0.97);
    output.extend(row(5, 0.3));
    output.extend(row(3, 0.8));
    let results = FileType::convert(&cfg, &output, 3).unwrap();
    assert_eq!(results.len(), 3);
    assert_eq!(results[0].content_type(), Some(ContentType::Shell));
    assert_eq!(results[1].content_type(), Some(ContentType::Unknown));
    assert_eq!(results[2].content_type(), Some(ContentType::Html));
    assert_eq!(inferred(&results[2]).inferred_type, ContentType::Javascript);
}

#[test]
fn convert_is_invariant_to_batching() {
    let cfg = config();
    let rows = [row(0, 0.97), row(5, 0.3), row(3, 0.8), row(2, 0.6)];
    let whole: Vec<u32> = rows.concat();
    let together = FileType::convert(&cfg, &whole, 4).unwrap();
    let mut one_by_one = Vec::new();
    for r in &rows {
        one_by_one.extend(FileType::convert(&cfg, r, 1).unwrap());
    }
    assert_eq!(together, one_by_one);
}

#[test]
fn convert_rejects_wrong_shape() {
    let cfg = config();
    let output = vec![key(0.1); 7];
    assert_eq!(FileType::convert(&cfg, &output, 1), Err(Error::RuntimeError));
    assert_eq!(FileType::convert(&cfg, &[], 0), Ok(Vec::new()));
}

#[test]
fn ruled_and_special_outcomes_score_one() {
    assert_eq!(SCORE_ONE, 1.0f32.to_bits());
    assert_eq!(FileType::Ruled(ContentType::Txt).score(), SCORE_ONE);
    assert_eq!(FileType::Directory.score(), SCORE_ONE);
    assert_eq!(FileType::Directory.content_type(), None);
    assert_eq!(FileType::Directory.info().label, "directory");
    assert_eq!(FileType::Symlink.info().label, "symlink");
    assert_eq!(FileType::Ruled(ContentType::Empty).info().label, "empty");
}

#[test]
fn batch_input_concatenates_rows() {
    let cfg = config();
    let fs = vec![Features(vec![1, 2, 3, 4, 5, 6, 7, 8]), Features(vec![9; 8])];
    let input = batch_input(&cfg, &fs).unwrap();
    assert_eq!(input, vec![1, 2, 3, 4, 5, 6, 7, 8, 9, 9, 9, 9, 9, 9, 9, 9]);
    let bad = vec![Features(vec![1; 8]), Features(vec![1; 7])];
    assert_eq!(batch_input(&cfg, &bad), Err(Error::ShapeError));
}

#[test]
fn config_validation_reports_config_error() {
    let mut cfg = config();
    assert!(cfg.is_valid());
    cfg.thresholds.pop();
    assert!(!cfg.is_valid());
    assert!(matches!(cfg.validate(), Err(Error::ConfigError)));
    let mut cfg = config();
    cfg.min_file_size_for_dl = 9;
    assert!(matches!(cfg.validate(), Err(Error::ConfigError)));
    let mut cfg = config();
    cfg.target_labels.clear();
    assert!(!cfg.is_valid());
    assert_eq!(config().features_size(), 8);
}

#[test]
fn ruled_content_type_converts_to_ruled_file_type() {
    let x: FileType = ContentType::Txt.into();
    assert_eq!(x, FileType::Ruled(ContentType::Txt));
    assert_eq!(x.content_type(), Some(ContentType::Txt));
}

#[test]
fn path_ruling_distinguishes_directories_and_links() {
    assert_eq!(path_ruling(true, false), Some(FileType::Directory));
    assert_eq!(path_ruling(false, true), Some(FileType::Symlink));
    assert_eq!(path_ruling(false, false), None);
}

#[test]
fn inferred_info_follows_final_type() {
    let r = classify(&config(), &row(3, 0.8), 0);
    let x = FileType::Inferred(r);
    assert_eq!(x.info().label, "html");
    assert_eq!(x.score(), key(0.8));
}

#[test]
fn assemble_fills_defaults_and_applies_overrides() {
    let cfg = ModelConfig::assemble(
        4,
        0,
        4,
        false,
        key(0.5),
        2,
        256,
        8,
        &[(ContentType::Python, key(0.9)), (ContentType::Python, key(0.8))],
        &[(ContentType::Javascript, ContentType::Html)],
        labels(),
    )
    .unwrap();
    assert_eq!(cfg.threshold(ContentType::Python), key(0.8));
    assert_eq!(cfg.threshold(ContentType::Shell), key(0.5));
    assert_eq!(cfg.overwrite(ContentType::Javascript), ContentType::Html);
    assert_eq!(cfg.overwrite(ContentType::Zip), ContentType::Zip);
    assert_eq!(cfg.thresholds.len(), CONTENT_TYPE_COUNT);
    let bad = ModelConfig::assemble(4, 0, 4, false, key(0.5), 9, 256, 8, &[], &[], labels());
    assert!(matches!(bad, Err(Error::ConfigError)));
    let none = ModelConfig::assemble(4, 0, 4, false, key(0.5), 2, 256, 8, &[], &[], vec![]);
    assert!(matches!(none, Err(Error::ConfigError)));
}
