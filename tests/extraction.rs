use magika::config::{ModelConfig, PROBE_BASE};
use magika::content::{ContentType, CONTENT_TYPE_COUNT};
use magika::input::{copy_features, extract_features, is_whitespace, strip_prefix, strip_suffix};
use magika::{Error, Features, FeaturesOrRuled, SyncInputApi};

fn config(beg: usize, mid: usize, end: usize, probes: bool, min: usize, block: usize) -> ModelConfig {
    ModelConfig {
        beg_size: beg,
        mid_size: mid,
        end_size: end,
        use_inputs_at_offsets: probes,
        min_file_size_for_dl: min,
        padding_token: 256,
        block_size: block,
        thresholds: vec![0.5f32.to_bits(); CONTENT_TYPE_COUNT],
        overwrite_map: (0..CONTENT_TYPE_COUNT).map(ContentType::from_index).collect(),
        target_labels: vec![ContentType::Txt],
    }
}

fn rule_config() -> ModelConfig {
    config(256, 256, 256, true, 100, 4096)
}

fn features(result: FeaturesOrRuled) -> Vec<i32> {
    match result {
        FeaturesOrRuled::Features(Features(x)) => x,
        FeaturesOrRuled::Ruled(c) => panic!("ruled {:?}", c),
    }
}

fn ruled(result: FeaturesOrRuled) -> ContentType {
    match result {
        FeaturesOrRuled::Ruled(c) => c,
        FeaturesOrRuled::Features(_) => panic!("features"),
    }
}

#[test]
fn empty_input_is_ruled_empty() {
    let content: Vec<u8> = Vec::new();
    let result = FeaturesOrRuled::extract_sync(&rule_config(), content.as_slice()).unwrap();
    assert_eq!(ruled(result), ContentType::Empty);
}

#[test]
fn short_spaces_are_ruled_text() {
    let content = vec![0x20u8; 64];
    let result = FeaturesOrRuled::extract_sync(&rule_config(), content.as_slice()).unwrap();
    assert_eq!(ruled(result), ContentType::Txt);
}

#[test]
fn short_mixed_whitespace_is_ruled_text() {
    let content = b" \t\r\n\x0b\x0c  \n".to_vec();
    let result = FeaturesOrRuled::extract_sync(&rule_config(), content.as_slice()).unwrap();
    assert_eq!(ruled(result), ContentType::Txt);
}

#[test]
fn short_non_utf8_is_ruled_unknown() {
    let content = vec![0x80u8; 64];
    let result = FeaturesOrRuled::extract_sync(&rule_config(), content.as_slice()).unwrap();
    assert_eq!(ruled(result), ContentType::Unknown);
}

#[test]
fn short_utf8_text_is_ruled_text() {
    let content = "héllo wörld".as_bytes().to_vec();
    let result = FeaturesOrRuled::extract_sync(&rule_config(), content.as_slice()).unwrap();
    assert_eq!(ruled(result), ContentType::Txt);
}

#[test]
fn long_enough_input_gives_features() {
    let content = vec![b'a'; 200];
    let cfg = rule_config();
    let result = FeaturesOrRuled::extract_sync(&cfg, content.as_slice()).unwrap();
    let f = features(result);
    assert_eq!(f.len(), 256 * 3 + 32);
    assert_eq!(f[99], 97);
}

#[test]
fn three_bands_are_stripped_and_aligned() {
    let cfg = config(4, 3, 4, false, 2, 6);
    let content: Vec<u8> = b"  ab\x0bcdefgh \n".to_vec();
    let result = FeaturesOrRuled::extract_sync(&cfg, content.as_slice()).unwrap();
    assert_eq!(features(result), vec![97, 98, 11, 99, 99, 100, 101, 101, 102, 103, 104]);
}

#[test]
fn short_windows_are_padded_by_alignment() {
    let cfg = config(5, 5, 5, false, 1, 3);
    let content: Vec<u8> = b"abc".to_vec();
    let result = FeaturesOrRuled::extract_sync(&cfg, content.as_slice()).unwrap();
    assert_eq!(
        features(result),
        vec![97, 98, 99, 256, 256, 256, 97, 98, 99, 256, 256, 256, 97, 98, 99]
    );
}

#[test]
fn probes_read_where_present_and_pad_elsewhere() {
    let cfg = config(2, 0, 2, true, 1, 4);
    let len = 0x9000 + 8;
    let content: Vec<u8> = (0..len).map(|i| (i % 251) as u8).collect();
    let mut file = content.as_slice();
    let (first, f) = extract_features(&cfg, &mut file, len).unwrap();
    assert_eq!(first, vec![0, 1, 2, 3]);
    let mut expected: Vec<i32> = vec![0, 1, 224, 225];
    for k in 0..4 {
        let offset = PROBE_BASE + 0x800 * k;
        for i in 0..8 {
            if offset + 8 <= len {
                expected.push(((offset + i) % 251) as i32);
            } else {
                expected.push(256);
            }
        }
    }
    assert_eq!(f, expected);
    assert_eq!(&f[28..], &[256; 8]);
}

#[test]
fn feature_vector_has_configured_length_and_range() {
    let cfg = config(16, 8, 16, true, 4, 32);
    for len in [1usize, 3, 17, 40, 100, 0x9100] {
        let content: Vec<u8> = (0..len).map(|i| (i * 7 % 256) as u8).collect();
        let mut file = content.as_slice();
        let (_, f) = extract_features(&cfg, &mut file, len).unwrap();
        assert_eq!(f.len(), 16 + 8 + 16 + 32);
        assert!(f.iter().all(|&x| (0..=255).contains(&x) || x == 256));
    }
}

#[test]
fn extraction_is_deterministic() {
    let cfg = config(8, 8, 8, true, 2, 16);
    let content: Vec<u8> = (0..300u32).map(|i| (i * 13 % 256) as u8).collect();
    let a = features(FeaturesOrRuled::extract_sync(&cfg, content.as_slice()).unwrap());
    let b = features(FeaturesOrRuled::extract_sync(&cfg, content.as_slice()).unwrap());
    assert_eq!(a, b);
}

#[test]
fn whitespace_includes_vertical_tab() {
    for x in [b' ', b'\t', b'\n', b'\r', 0x0b, 0x0c] {
        assert!(is_whitespace(x));
    }
    for x in [b'a', 0x00, 0x1c, 0x85, 0xa0] {
        assert!(!is_whitespace(x));
    }
}

#[test]
fn strip_counts_edge_whitespace() {
    let xs: &[u8] = b" \t\x0bab c\n\x0c";
    assert_eq!(strip_prefix(xs), 3);
    assert_eq!(strip_suffix(xs), 7);
    let ws: &[u8] = b" \n ";
    assert_eq!(strip_prefix(ws), 3);
    assert_eq!(strip_suffix(ws), 0);
}

#[test]
fn copy_features_centers_toward_earlier_side() {
    let mut dst = vec![-1; 4];
    copy_features(&mut dst, 0, 4, &[7], 0, 1, 1);
    assert_eq!(dst, vec![-1, 7, -1, -1]);
    let mut dst = vec![-1; 2];
    copy_features(&mut dst, 0, 2, &[1, 2, 3, 4, 5], 0, 5, 1);
    assert_eq!(dst, vec![2, 3]);
    let mut dst = vec![-1; 3];
    copy_features(&mut dst, 0, 3, &[1, 2, 3, 4, 5], 0, 5, 2);
    assert_eq!(dst, vec![3, 4, 5]);
    let mut dst = vec![-1; 5];
    copy_features(&mut dst, 1, 3, &[9, 8], 0, 2, 2);
    assert_eq!(dst, vec![-1, -1, 9, 8, -1]);
}

#[test]
fn slice_read_past_end_is_short_read() {
    let content: Vec<u8> = vec![1, 2, 3];
    let mut input = content.as_slice();
    let mut buffer = vec![0u8; 2];
    assert_eq!(input.read_at(&mut buffer, 2), Err(Error::ShortRead));
    assert_eq!(input.read_at(&mut buffer, 1), Ok(()));
    assert_eq!(buffer, vec![2, 3]);
    assert_eq!(input.length(), Ok(3));
}
