use oar_ocr::batching::batch_ranges;
use oar_ocr::config::{
    ExecutionProvider, Float32, LimitType, ModelSource, OrtSessionConfig, TextDetectionConfig, TextRecognitionConfig, F32_0_3, F32_0_6,
    F32_1_5,
};
use oar_ocr::error::OCRError;
use oar_ocr::models::crnn::{CRNNModelBuilder, CRNNPreprocessConfig};
use oar_ocr::models::db::{
    BoxType, ColorOrder, DBModel, DBModelBuilder, DBPostprocessConfig, DBPreprocessConfig,
    ScoreMode, TensorLayout,
};
use oar_ocr::ocr::{
    after_batch_detection, must_flush_pool, DetectionAction, DictionarySource, OAROCRBuilder, WordBoxSource, F32_0_2, F32_0_4, F32_0_5, F32_2_0, OAROCR,
};
use oar_ocr::text::{character_dict_lines, usize_to_decimal};

fn builder() -> OAROCRBuilder {
    OAROCRBuilder::new(
        ModelSource::path("models/det.onnx"),
        ModelSource::path("models/rec.onnx"),
        "models/dict.txt",
    )
}

fn lines(s: &str) -> Vec<String> {
    character_dict_lines(s)
}

#[test]
fn dictionary_lines_match_std_lines() {
    let samples = [
        "", "a", "a\n", "a\nb", "a\r\nb\r\n", "\n", "\n\n", "a\r", "a\r\r\n", "x\ry\n", "中\n文\n",
        " \n\t\n", "\r\n",
    ];
    for s in samples {
        let expected: Vec<String> = s.lines().map(|l| l.to_string()).collect();
        assert_eq!(lines(s), expected, "input {:?}", s);
    }
}

#[test]
fn dictionary_lines_examples() {
    assert_eq!(lines("a\nb\nc\n"), vec!["a", "b", "c"]);
    assert_eq!(lines("a\r\nb"), vec!["a", "b"]);
    assert_eq!(lines("a\r"), vec!["a\r"]);
    assert_eq!(lines("\n"), vec![""]);
    assert!(lines("").is_empty());
}

#[test]
fn dictionary_round_trip_example() {
    let entries = vec!["", "a", "bc", " ", "中"];
    let mut text = String::new();
    for e in &entries {
        text.push_str(e);
        text.push('\n');
    }
    assert_eq!(lines(&text), entries);
}

#[test]
fn dictionary_final_line_feed_optional_example() {
    assert_eq!(lines("x\ny"), lines("x\ny\n"));
    assert_ne!(lines("x\r"), lines("x\r\n"));
}

#[test]
fn decimal_rendering() {
    for n in [0usize, 7, 10, 99, 4096, 4097, usize::MAX] {
        assert_eq!(usize_to_decimal(n), n.to_string());
    }
}

#[test]
fn validation_error_message() {
    let e = OCRError::validation_error("C", "f", "1..=2", "3");
    assert_eq!(e.to_string(), "validation error in C: f must be in 1..=2, got 3");
    let e = OAROCRBuilder::validate_batch_size("image_batch_size", 0).unwrap_err();
    assert_eq!(
        e.to_string(),
        "validation error in OAROCRBuilder: image_batch_size must be in 1..=4096, got 0"
    );
    let e = OCRError::InvalidInput { message: String::from("bad") };
    assert_eq!(e.to_string(), "invalid input: bad");
}

#[test]
fn batch_size_bounds() {
    assert!(OAROCRBuilder::validate_batch_size("x", 2).is_ok());
    assert!(OAROCRBuilder::validate_batch_size("x", 4096).is_ok());
    assert!(OAROCRBuilder::validate_batch_size("x", 4097).is_err());
    assert!(OAROCRBuilder::validate_batch_size("x", usize::MAX).is_err());
}

#[test]
fn validate_batch_sizes_reports_image_first() {
    assert!(builder().validate_batch_sizes().is_ok());
    assert!(builder().image_batch_size(1).region_batch_size(4096).validate_batch_sizes().is_ok());
    let e = builder().image_batch_size(0).region_batch_size(0).validate_batch_sizes().unwrap_err();
    assert!(e.to_string().contains("image_batch_size"));
    let e = builder().image_batch_size(3).region_batch_size(5000).validate_batch_sizes().unwrap_err();
    assert!(e.to_string().contains("region_batch_size"));
    assert!(e.to_string().contains("got 5000"));
}

fn bits(v: f32) -> Float32 {
    Float32::from_bits(v.to_bits())
}

#[test]
fn detection_defaults_by_text_type() {
    let general = builder().effective_detection_config();
    assert_eq!(general.score_threshold, bits(0.3));
    assert_eq!(general.box_threshold, bits(0.6));
    assert_eq!(general.unclip_ratio, bits(2.0));
    assert_eq!(general.limit_side_len, Some(960));
    assert_eq!(general.limit_type, Some(LimitType::Max));
    assert_eq!(general.max_side_len, Some(4000));
    assert_eq!(general.max_candidates, 1000);

    let table = builder().text_type("table").effective_detection_config();
    assert_eq!(table.score_threshold, bits(0.3));
    assert_eq!(table.box_threshold, bits(0.4));
    assert_eq!(table.unclip_ratio, bits(2.0));
    assert_eq!(table.limit_side_len, Some(960));
    assert_eq!(table.limit_type, Some(LimitType::Max));

    let seal = builder().text_type("seal").effective_detection_config();
    assert_eq!(seal.score_threshold, bits(0.2));
    assert_eq!(seal.box_threshold, bits(0.6));
    assert_eq!(seal.unclip_ratio, bits(0.5));
    assert_eq!(seal.limit_side_len, Some(736));
    assert_eq!(seal.limit_type, Some(LimitType::Min));
    assert_eq!(seal.max_side_len, Some(4000));

    // The detection defaults compare the text type exactly.
    let upper = builder().text_type("SEAL").effective_detection_config();
    assert_eq!(upper, general);
    let other = builder().text_type("general").effective_detection_config();
    assert_eq!(other, general);
}

#[test]
fn explicit_detection_config_is_kept() {
    let cfg = TextDetectionConfig {
        score_threshold: bits(0.5),
        box_threshold: bits(0.6),
        unclip_ratio: bits(1.8),
        max_candidates: 10,
        limit_side_len: None,
        limit_type: None,
        max_side_len: None,
    };
    let b = builder().text_type("seal").text_detection_config(cfg);
    assert_eq!(b.effective_detection_config(), cfg);
    assert_eq!(TextDetectionConfig::default().max_candidates, 1000);
}

#[test]
fn setters_touch_only_their_field() {
    let b = builder()
        .character_dict_content("a\nb")
        .ort_session(OrtSessionConfig { intra_threads: Some(2), inter_threads: None, execution_providers: vec![] })
        .text_type("table")
        .return_word_box(true)
        .image_batch_size(8);
    assert_eq!(b.character_dict_content.as_deref(), Some("a\nb"));
    assert_eq!(b.ort_session_config, Some(OrtSessionConfig { intra_threads: Some(2), inter_threads: None, execution_providers: vec![] }));
    assert_eq!(b.text_type.as_deref(), Some("table"));
    assert!(b.return_word_box);
    assert_eq!(b.image_batch_size, Some(8));
    assert_eq!(b.region_batch_size, None);
    assert_eq!(b.character_dict_path, "models/dict.txt");
    assert_eq!(OrtSessionConfig::new(), OrtSessionConfig { intra_threads: None, inter_threads: None, execution_providers: vec![] });
}

#[test]
fn model_source_kinds() {
    assert_eq!(ModelSource::path("m.onnx").as_path(), Some("m.onnx"));
    assert_eq!(ModelSource::bytes(vec![1, 2, 3]).as_path(), None);
}

#[test]
fn runtime_settings() {
    let ocr: OAROCR<u8> = builder().image_batch_size(4).return_word_box(true).into_ocr(7u8).unwrap();
    assert_eq!(ocr.pipeline, 7);
    assert_eq!(ocr.detection_batch_size(16), 4);
    assert_eq!(ocr.recognition_batch_size(16), 16);
    assert_eq!(ocr.recognition_batch_size(0), 1);
    assert!(!ocr.is_seal_text());
    assert_eq!(ocr.word_box_source(3, 10, 0), WordBoxSource::CtcColumns);
    assert_eq!(ocr.word_box_source(0, 10, 3), WordBoxSource::CharPositions);
    assert_eq!(ocr.word_box_source(3, 0, 0), WordBoxSource::Unavailable);
    let off: OAROCR<u8> = builder().into_ocr(0u8).unwrap();
    assert_eq!(off.word_box_source(3, 10, 3), WordBoxSource::Unavailable);
    assert_eq!(off.detection_batch_size(0), 1);
}

#[test]
fn seal_text_is_case_insensitive() {
    assert!(builder().text_type("SEAL").into_ocr(()).unwrap().is_seal_text());
    assert!(builder().text_type("Seal").into_ocr(()).unwrap().is_seal_text());
    assert!(builder().text_type("seal").into_ocr(()).unwrap().is_seal_text());
    assert!(!builder().text_type("seals").into_ocr(()).unwrap().is_seal_text());
    assert!(!builder().text_type("table").into_ocr(()).unwrap().is_seal_text());
}

#[test]
fn cjk_ranges() {
    assert!(OAROCR::<()>::is_cjk('中'));
    assert!(OAROCR::<()>::is_cjk('\u{4E00}'));
    assert!(OAROCR::<()>::is_cjk('\u{9FFF}'));
    assert!(OAROCR::<()>::is_cjk('\u{3400}'));
    assert!(OAROCR::<()>::is_cjk('\u{20000}'));
    assert!(OAROCR::<()>::is_cjk('\u{2B81F}'));
    assert!(!OAROCR::<()>::is_cjk('A'));
    assert!(!OAROCR::<()>::is_cjk('\u{4DC0}'));
    assert!(!OAROCR::<()>::is_cjk('\u{2A6E0}'));
    assert!(!OAROCR::<()>::is_cjk('あ'));
}

#[test]
fn batches_cover_items() {
    assert_eq!(batch_ranges(0, 4), vec![]);
    assert_eq!(batch_ranges(10, 4), vec![(0, 4), (4, 8), (8, 10)]);
    assert_eq!(batch_ranges(8, 4), vec![(0, 4), (4, 8)]);
    assert_eq!(batch_ranges(3, 1), vec![(0, 1), (1, 2), (2, 3)]);
    assert_eq!(batch_ranges(3, usize::MAX), vec![(0, 3)]);
    let items: Vec<usize> = (0..23).collect();
    let chunks: Vec<(usize, usize)> = {
        let mut start = 0;
        items.chunks(5).map(|c| {
            let r = (start, start + c.len());
            start += c.len();
            r
        }).collect()
    };
    assert_eq!(batch_ranges(23, 5), chunks);
}

#[test]
fn crnn_builder_and_build() {
    let b = CRNNModelBuilder::new();
    assert_eq!(b.preprocess_config.model_input_shape, [3, 48, 320]);
    assert_eq!(b.preprocess_config.max_img_w, None);
    let d = CRNNPreprocessConfig::default();
    assert_eq!(d.model_input_shape, [3, 48, 320]);
    let m = CRNNModelBuilder::default()
        .model_input_shape([3, 32, 100])
        .max_img_w(800)
        .character_dict(vec![String::from("a"), String::from("b")])
        .with_ort_config(OrtSessionConfig::new())
        .build("session");
    assert_eq!(m.inference, "session");
    assert_eq!(m.resizer.rec_image_shape, [3, 32, 100]);
    assert_eq!(m.resizer.max_img_w, Some(800));
    assert_eq!(m.decoder.character_list, Some(vec![String::from("a"), String::from("b")]));
    assert!(m.decoder.use_space_char);
    let m = CRNNModelBuilder::new()
        .preprocess_config(CRNNPreprocessConfig { model_input_shape: [1, 2, 3], max_img_w: None })
        .build(());
    assert_eq!(m.resizer.rec_image_shape, [1, 2, 3]);
    assert_eq!(m.decoder.character_list, None);
}

#[test]
fn db_builder_and_build() {
    let b = DBModelBuilder::default();
    assert_eq!(b.postprocess_config.box_threshold, bits(0.7));
    assert_eq!(b.postprocess_config.score_threshold, bits(0.3));
    assert_eq!(b.postprocess_config.unclip_ratio, bits(1.5));
    assert_eq!(b.postprocess_config.score_mode, ScoreMode::Fast);
    assert_eq!(b.postprocess_config.box_type, BoxType::Quad);
    assert_eq!(b.preprocess_config, DBPreprocessConfig::default());
    let post = DBPostprocessConfig { max_candidates: 5, ..DBPostprocessConfig::default() };
    let pre = DBPreprocessConfig { limit_side_len: Some(640), ..DBPreprocessConfig::default() };
    let m = DBModelBuilder::new()
        .preprocess_config(pre)
        .postprocess_config(post)
        .with_ort_config(OrtSessionConfig::new())
        .build(1u32);
    assert_eq!(m.inference, 1);
    assert_eq!(m.resizer.limit_side_len, Some(640));
    assert_eq!(m.postprocessor, post);
    assert_eq!(f32::from_bits(m.normalizer.scale.bits), 1.0f32 / 255.0);
    assert_eq!(f32::from_bits(m.normalizer.mean[0].bits), 0.485f32);
    assert_eq!(f32::from_bits(m.normalizer.mean[1].bits), 0.456f32);
    assert_eq!(f32::from_bits(m.normalizer.mean[2].bits), 0.406f32);
    assert_eq!(f32::from_bits(m.normalizer.std[0].bits), 0.229f32);
    assert_eq!(f32::from_bits(m.normalizer.std[1].bits), 0.224f32);
    assert_eq!(f32::from_bits(m.normalizer.std[2].bits), 0.225f32);
    assert_eq!(m.normalizer.order, TensorLayout::CHW);
    assert_eq!(m.normalizer.color_order, ColorOrder::BGR);
    let raw = DBModel::new(1, 2, 3, 4);
    assert_eq!((raw.inference, raw.resizer, raw.normalizer, raw.postprocessor), (1, 2, 3, 4));
}

#[test]
fn float_constants_match_their_values() {
    assert_eq!(f32::from_bits(F32_0_2), 0.2);
    assert_eq!(f32::from_bits(F32_0_3), 0.3);
    assert_eq!(f32::from_bits(F32_0_4), 0.4);
    assert_eq!(f32::from_bits(F32_0_5), 0.5);
    assert_eq!(f32::from_bits(F32_0_6), 0.6);
    assert_eq!(f32::from_bits(F32_1_5), 1.5);
    assert_eq!(f32::from_bits(F32_2_0), 2.0);
}

#[test]
fn empty_image_list_is_rejected() {
    assert!(OAROCR::<()>::validate_image_count(1).is_ok());
    let e = OAROCR::<()>::validate_image_count(0).unwrap_err();
    assert_eq!(
        e.to_string(),
        "validation error in OCR Pipeline: images must be in non-empty slice, got empty slice"
    );
}

#[test]
fn box_characters_pad_with_question_marks() {
    assert_eq!(OAROCR::<()>::box_characters("ABC", 3), vec!['A', 'B', 'C']);
    assert_eq!(OAROCR::<()>::box_characters("中文", 3), vec!['中', '文', '?']);
    assert_eq!(OAROCR::<()>::box_characters("ABCD", 2), vec!['A', 'B']);
    assert_eq!(OAROCR::<()>::box_characters("", 2), vec!['?', '?']);
}

#[test]
fn runtime_is_built_only_with_valid_batch_sizes() {
    let e = builder().image_batch_size(4).region_batch_size(4097).into_ocr(()).unwrap_err();
    assert_eq!(
        e.to_string(),
        "validation error in OAROCRBuilder: region_batch_size must be in 1..=4096, got 4097"
    );
    let e = builder().image_batch_size(0).region_batch_size(0).into_ocr(()).unwrap_err();
    assert_eq!(
        e.to_string(),
        "validation error in OAROCRBuilder: image_batch_size must be in 1..=4096, got 0"
    );
    let ocr = builder().image_batch_size(4096).region_batch_size(1).into_ocr(5u8).unwrap();
    assert_eq!(ocr.image_batch_size, Some(4096));
    assert_eq!(ocr.region_batch_size, Some(1));
}

#[test]
fn batch_size_errors_name_range_and_value() {
    let e = builder().image_batch_size(9000).validate_batch_sizes().unwrap_err();
    assert_eq!(
        e.to_string(),
        "validation error in OAROCRBuilder: image_batch_size must be in 1..=4096, got 9000"
    );
}

#[test]
fn recognizer_and_detector_settings() {
    let rec = TextRecognitionConfig { score_threshold: bits(0.7) };
    let b = builder().text_recognition_config(rec).return_word_box(true).text_type("seal");
    let r = b.recognition_settings("a\r\nb\n中\n");
    assert_eq!(r.character_dict, vec!["a", "b", "中"]);
    assert!(r.return_word_box);
    assert_eq!(r.config, Some(rec));
    let d = b.detection_settings();
    assert_eq!(d.config, b.effective_detection_config());
    assert_eq!(d.text_type.as_deref(), Some("seal"));
    assert_eq!(builder().recognition_settings("").config, None);
}

#[test]
fn detection_loop_steps() {
    assert_eq!(after_batch_detection(0, 4, true), DetectionAction::NextBatch { start: 4 });
    assert_eq!(after_batch_detection(4, 6, false), DetectionAction::PerImage { from: 4, to: 6 });
    assert!(!must_flush_pool(4095));
    assert!(must_flush_pool(4096));
    assert!(must_flush_pool(5000));
}

#[test]
fn execution_providers_are_kept_in_order() {
    let c = OrtSessionConfig::new()
        .with_execution_provider(ExecutionProvider::CUDA { device_id: 1 })
        .with_execution_provider(ExecutionProvider::CPU);
    assert_eq!(c.execution_providers, vec![ExecutionProvider::CUDA { device_id: 1 }, ExecutionProvider::CPU]);
    assert_eq!(c.intra_threads, None);
}

#[test]
fn detector_follows_detection_config() {
    let cfg = builder().text_type("seal").effective_detection_config();
    let b = DBModelBuilder::for_detection(&cfg);
    assert_eq!(b.preprocess_config.limit_side_len, Some(736));
    assert_eq!(b.preprocess_config.limit_type, Some(LimitType::Min));
    assert_eq!(b.preprocess_config.max_side_limit, Some(4000));
    assert_eq!(b.preprocess_config.resize_long, None);
    assert_eq!(b.postprocess_config.score_threshold, bits(0.2));
    assert_eq!(b.postprocess_config.box_threshold, bits(0.6));
    assert_eq!(b.postprocess_config.unclip_ratio, bits(0.5));
    assert_eq!(b.postprocess_config.max_candidates, 1000);
    assert!(b.ort_config.is_none());
}

#[test]
fn dictionary_text_wins_over_the_file() {
    match builder().dictionary_source() {
        DictionarySource::File(p) => assert_eq!(p, "models/dict.txt"),
        DictionarySource::Text(_) => panic!("expected the dictionary file"),
    }
    match builder().character_dict_content("a\nb").dictionary_source() {
        DictionarySource::Text(t) => assert_eq!(t, "a\nb"),
        DictionarySource::File(_) => panic!("expected the dictionary text"),
    }
}
