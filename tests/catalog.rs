use magika::content::{ContentType, CONTENT_TYPE_COUNT};
use magika::label::{Label, LABEL_COUNT};
use magika::output::{MagikaConfig, Output, TargetLabelsInfo, TrainDatasetInfo};

#[test]
fn content_type_info_matches_catalog() {
    let info = ContentType::Shell.info();
    assert_eq!(info.label, "shell");
    assert!(info.is_text);
    let info = ContentType::Zip.info();
    assert_eq!(info.label, "zip");
    assert_eq!(info.mime_type, "application/zip");
    assert_eq!(info.group, "archive");
    assert_eq!(info.extensions, &["zip"]);
    assert!(!info.is_text);
    assert_eq!(ContentType::Unknown.info().label, "unknown");
    assert_eq!(ContentType::Txt.info().label, "txt");
}

#[test]
fn content_type_indices_are_dense() {
    for i in 0..CONTENT_TYPE_COUNT {
        assert_eq!(ContentType::from_index(i).index(), i);
    }
    assert_eq!(ContentType::_3gp.index(), 0);
    assert_eq!(ContentType::Zlibstream.index(), CONTENT_TYPE_COUNT - 1);
}

#[test]
fn label_metadata_getters() {
    let python = Label::Python;
    assert_eq!(python.code(), "python");
    assert_eq!(python.short_desc(), "Python source");
    assert_eq!(python.long_desc(), "Python source");
    assert_eq!(python.magic(), "Python script");
    assert_eq!(python.group(), "code");
    assert_eq!(python.mime(), "text/x-python");
    assert!(python.is_text());
    assert!(!Label::Zip.is_text());
    assert_eq!(Label::from_index(LABEL_COUNT - 1), Label::Zlibstream);
    assert_eq!(Label::from_index(0), Label::Ai);
}

#[test]
fn label_output_picks_first_best_label() {
    let mut output = vec![0u32; 2 * LABEL_COUNT];
    output[5] = 0.7f32.to_bits();
    output[9] = 0.7f32.to_bits();
    output[LABEL_COUNT + LABEL_COUNT - 1] = 0.2f32.to_bits();
    let results = Output::convert(&output, 2).unwrap();
    assert_eq!(results.len(), 2);
    assert_eq!(results[0].label(), Label::from_index(5));
    assert_eq!(results[0].score(), 0.7f32.to_bits());
    assert_eq!(results[1].label(), Label::Zlibstream);
    assert!(Output::convert(&output, 3).is_err());
    let config = MagikaConfig {
        train_dataset_info: TrainDatasetInfo {
            target_labels_info: TargetLabelsInfo {
                target_labels_space: vec!["ai".to_string(), "apk".to_string()],
            },
        },
    };
    assert_eq!(config.target_label(1), "apk");
    let scores = vec![0.2f32.to_bits(), 0.8f32.to_bits(), 0.6f32.to_bits(), 0.6f32.to_bits()];
    let named = config.convert_output(&scores, 2).unwrap();
    assert_eq!(named.len(), 2);
    assert_eq!(named[0].label, "apk");
    assert_eq!(named[0].score, 0.8f32.to_bits());
    assert_eq!(named[1].label, "ai");
    assert!(config.convert_output(&scores, 1).is_err());
}
