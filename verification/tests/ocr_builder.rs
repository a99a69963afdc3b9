use oar_ocr::config::{Float32, ModelSource, TextDetectionConfig, TextRecognitionConfig};
use oar_ocr::ocr::OAROCRBuilder;

fn builder() -> OAROCRBuilder {
    OAROCRBuilder::new(
        ModelSource::path("models/det.onnx"),
        ModelSource::path("models/rec.onnx"),
        "models/dict.txt",
    )
}

#[test]
fn test_oarocr_builder_new() {
    let builder = builder();

    assert_eq!(builder.text_detection_model.as_path(), Some("models/det.onnx"));
    assert_eq!(builder.text_recognition_model.as_path(), Some("models/rec.onnx"));
    assert_eq!(builder.character_dict_path, String::from("models/dict.txt"));
    assert!(builder.document_orientation_model.is_none());
    assert!(builder.text_line_orientation_model.is_none());
    assert!(builder.document_rectification_model.is_none());
}

#[test]
fn test_oarocr_builder_with_optional_components() {
    let builder = builder()
        .with_document_image_orientation_classification(ModelSource::path(
            "models/doc_orient.onnx",
        ))
        .with_text_line_orientation_classification(ModelSource::path("models/line_orient.onnx"))
        .with_document_image_rectification(ModelSource::path("models/rectify.onnx"));

    let Some(source) = builder.document_orientation_model.as_ref() else {
        panic!("expected document_orientation_model to be Some");
    };
    assert_eq!(source.as_path(), Some("models/doc_orient.onnx"));
    let Some(source) = builder.text_line_orientation_model.as_ref() else {
        panic!("expected text_line_orientation_model to be Some");
    };
    assert_eq!(source.as_path(), Some("models/line_orient.onnx"));
    let Some(source) = builder.document_rectification_model.as_ref() else {
        panic!("expected document_rectification_model to be Some");
    };
    assert_eq!(source.as_path(), Some("models/rectify.onnx"));
}

#[test]
fn test_oarocr_builder_with_configuration() {
    let det_config = TextDetectionConfig {
        score_threshold: Float32::from_bits(0.5f32.to_bits()),
        box_threshold: Float32::from_bits(0.6f32.to_bits()),
        unclip_ratio: Float32::from_bits(1.8f32.to_bits()),
        max_candidates: 1000,
        limit_side_len: None,
        limit_type: None,
        max_side_len: None,
    };

    let rec_config = TextRecognitionConfig {
        score_threshold: Float32::from_bits(0.7f32.to_bits()),
    };

    let builder = builder()
        .text_detection_config(det_config.clone())
        .text_recognition_config(rec_config.clone());

    assert!(builder.text_detection_config.is_some());
    assert!(builder.text_recognition_config.is_some());
}

#[test]
fn test_oarocr_builder_with_batch_sizes() {
    let builder = builder().image_batch_size(4).region_batch_size(64);

    assert_eq!(builder.image_batch_size, Some(4));
    assert_eq!(builder.region_batch_size, Some(64));
}

#[test]
fn test_validate_batch_size_accepts_bounds() {
    assert!(OAROCRBuilder::validate_batch_size("image_batch_size", 1).is_ok());
    assert!(
        OAROCRBuilder::validate_batch_size("region_batch_size", OAROCRBuilder::MAX_BATCH_SIZE,)
            .is_ok()
    );
}

#[test]
fn test_validate_batch_size_rejects_zero() {
    let err = OAROCRBuilder::validate_batch_size("image_batch_size", 0).unwrap_err();
    let msg = err.to_string();
    assert!(msg.contains("image_batch_size"));
    assert!(msg.contains(&format!("1..={}", OAROCRBuilder::MAX_BATCH_SIZE)));
}

#[test]
fn test_validate_batch_size_rejects_values_above_max() {
    let err = OAROCRBuilder::validate_batch_size(
        "region_batch_size",
        OAROCRBuilder::MAX_BATCH_SIZE + 1,
    )
    .unwrap_err();
    let msg = err.to_string();
    assert!(msg.contains("region_batch_size"));
    assert!(msg.contains(&format!("1..={}", OAROCRBuilder::MAX_BATCH_SIZE)));
}
