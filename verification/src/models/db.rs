//! The DB (differentiable binarization) text detection model.

use vstd::prelude::*;
use crate::config::{Float32, LimitType, OrtSessionConfig, TextDetectionConfig, F32_0_3, F32_1_5};

verus! {

/// Bit pattern of `0.7f32`.
pub const F32_0_7: u32 = 0x3f333333;

/// How an input image is resized before detection.
#[derive(Clone, Copy, Debug, PartialEq, Eq, Structural)]
pub struct DBPreprocessConfig {
    /// Limit for the side length of the image.
    pub limit_side_len: Option<u32>,
    /// Which side the limit applies to.
    pub limit_type: Option<LimitType>,
    /// Largest side length the image is ever resized to.
    pub max_side_limit: Option<u32>,
    /// Length the long side is resized to (instead of `limit_side_len`).
    pub resize_long: Option<u32>,
}

impl Default for DBPreprocessConfig {
    fn default() -> (c: DBPreprocessConfig)
        ensures
            c.limit_side_len is None,
            c.limit_type is None,
            c.max_side_limit is None,
            c.resize_long is None,
    {
        DBPreprocessConfig {
            limit_side_len: None,
            limit_type: None,
            max_side_limit: None,
            resize_long: None,
        }
    }
}

/// How the score of a candidate box is computed.
#[derive(Clone, Copy, Debug, PartialEq, Eq, Structural)]
pub enum ScoreMode {
    /// Mean over the box's bounding rectangle.
    Fast,
    /// Mean over the box's polygon.
    Slow,
}

/// The shape of the boxes a detection yields.
#[derive(Clone, Copy, Debug, PartialEq, Eq, Structural)]
pub enum BoxType {
    Quad,
    Poly,
}

/// How the probability map of the model is turned into boxes.
#[derive(Clone, Copy, Debug, PartialEq, Eq, Structural)]
pub struct DBPostprocessConfig {
    /// Pixel-level threshold for text.
    pub score_threshold: Float32,
    /// Box-level threshold for keeping a detection.
    pub box_threshold: Float32,
    /// Expansion ratio of detected regions.
    pub unclip_ratio: Float32,
    /// Maximum number of candidate detections.
    pub max_candidates: usize,
    /// Whether the binary map is dilated.
    pub use_dilation: bool,
    /// How box scores are computed.
    pub score_mode: ScoreMode,
    /// The shape of the boxes.
    pub box_type: BoxType,
}

impl Default for DBPostprocessConfig {
    fn default() -> (c: DBPostprocessConfig)
        ensures
            c == (DBPostprocessConfig {
                score_threshold: Float32 { bits: F32_0_3 },
                box_threshold: Float32 { bits: F32_0_7 },
                unclip_ratio: Float32 { bits: F32_1_5 },
                max_candidates: 1000,
                use_dilation: false,
                score_mode: ScoreMode::Fast,
                box_type: BoxType::Quad,
            }),
    {
        DBPostprocessConfig {
            score_threshold: Float32 { bits: F32_0_3 },
            box_threshold: Float32 { bits: F32_0_7 },
            unclip_ratio: Float32 { bits: F32_1_5 },
            max_candidates: 1000,
            use_dilation: false,
            score_mode: ScoreMode::Fast,
            box_type: BoxType::Quad,
        }
    }
}

/// The DB detection model: an inference engine with its resizer, normalizer
/// and postprocessor.
#[derive(Debug)]
pub struct DBModel<I, R, N, P> {
    pub inference: I,
    pub resizer: R,
    pub normalizer: N,
    pub postprocessor: P,
}

impl<I, R, N, P> DBModel<I, R, N, P> {
    /// A model made of the given parts.
    pub fn new(inference: I, resizer: R, normalizer: N, postprocessor: P) -> (m: DBModel<
        I,
        R,
        N,
        P,
    >)
        ensures
            m.inference == inference,
            m.resizer == resizer,
            m.normalizer == normalizer,
            m.postprocessor == postprocessor,
    {
        DBModel { inference, resizer, normalizer, postprocessor }
    }
}

/// The resizing applied before detection.
#[derive(Clone, Copy, Debug, PartialEq, Eq, Structural)]
pub struct DetResizeForTest {
    pub limit_side_len: Option<u32>,
    pub limit_type: Option<LimitType>,
    pub resize_long: Option<u32>,
    pub max_side_limit: Option<u32>,
}

/// The memory layout of an image tensor.
#[derive(Clone, Copy, Debug, PartialEq, Eq, Structural)]
pub enum TensorLayout {
    /// Channels, then rows, then columns.
    CHW,
    /// Rows, then columns, then channels.
    HWC,
}

/// The order of the colour channels a model expects.
#[derive(Clone, Copy, Debug, PartialEq, Eq, Structural)]
pub enum ColorOrder {
    RGB,
    BGR,
}

/// Per-channel normalization `(pixel * scale - mean) / std`, with the
/// channel statistics given in the model's colour order.
#[derive(Clone, Copy, Debug)]
pub struct NormalizeImage {
    pub scale: Float32,
    pub mean: [Float32; 3],
    pub std: [Float32; 3],
    pub order: TensorLayout,
    pub color_order: ColorOrder,
}

/// Bit pattern of `1.0f32 / 255.0`.
pub const F32_INV_255: u32 = 0x3b808081;

/// Bit patterns of the ImageNet channel means `0.485, 0.456, 0.406`.
pub const IMAGENET_MEAN: [u32; 3] = [0x3ef851ec, 0x3ee978d5, 0x3ecfdf3b];

/// Bit patterns of the ImageNet channel deviations `0.229, 0.224, 0.225`.
pub const IMAGENET_STD: [u32; 3] = [0x3e6a7efa, 0x3e656042, 0x3e666666];

/// Builder for a DB model.
#[derive(Debug)]
pub struct DBModelBuilder {
    pub preprocess_config: DBPreprocessConfig,
    pub postprocess_config: DBPostprocessConfig,
    pub ort_config: Option<OrtSessionConfig>,
}

impl DBModelBuilder {
    /// A builder with the default pre- and postprocessing and no session options.
    pub fn new() -> (b: DBModelBuilder)
        ensures
            b.preprocess_config == (DBPreprocessConfig {
                limit_side_len: None,
                limit_type: None,
                max_side_limit: None,
                resize_long: None,
            }),
            b.postprocess_config == (DBPostprocessConfig {
                score_threshold: Float32 { bits: F32_0_3 },
                box_threshold: Float32 { bits: F32_0_7 },
                unclip_ratio: Float32 { bits: F32_1_5 },
                max_candidates: 1000,
                use_dilation: false,
                score_mode: ScoreMode::Fast,
                box_type: BoxType::Quad,
            }),
            b.ort_config is None,
    {
        DBModelBuilder {
            preprocess_config: DBPreprocessConfig::default(),
            postprocess_config: DBPostprocessConfig::default(),
            ort_config: None,
        }
    }

    /// Sets the preprocessing configuration.
    pub fn preprocess_config(self, config: DBPreprocessConfig) -> (b: DBModelBuilder)
        ensures
            b == (DBModelBuilder { preprocess_config: config, ..self }),
    {
        DBModelBuilder { preprocess_config: config, ..self }
    }

    /// Sets the postprocessing configuration.
    pub fn postprocess_config(self, config: DBPostprocessConfig) -> (b: DBModelBuilder)
        ensures
            b == (DBModelBuilder { postprocess_config: config, ..self }),
    {
        DBModelBuilder { postprocess_config: config, ..self }
    }

    /// Sets the ONNX Runtime session options.
    pub fn with_ort_config(self, config: OrtSessionConfig) -> (b: DBModelBuilder)
        ensures
            b == (DBModelBuilder { ort_config: Some(config), ..self }),
    {
        DBModelBuilder { ort_config: Some(config), ..self }
    }
}

impl DBModelBuilder {
    /// Builds the model around `inference`, the session that was loaded with
    /// this builder's session options (input name `"x"`): the resizer takes
    /// the preprocessing limits, the normalizer scales pixels to `[0, 1]` and
    /// applies the ImageNet statistics in BGR order to a CHW tensor, and the
    /// postprocessor takes the postprocessing configuration.
    pub fn build<I>(self, inference: I) -> (m: DBModel<
        I,
        DetResizeForTest,
        NormalizeImage,
        DBPostprocessConfig,
    >)
        ensures
            m.inference == inference,
            m.resizer == (DetResizeForTest {
                limit_side_len: self.preprocess_config.limit_side_len,
                limit_type: self.preprocess_config.limit_type,
                resize_long: self.preprocess_config.resize_long,
                max_side_limit: self.preprocess_config.max_side_limit,
            }),
            m.normalizer.scale.bits == F32_INV_255,
            m.normalizer.mean[0].bits == IMAGENET_MEAN[0],
            m.normalizer.mean[1].bits == IMAGENET_MEAN[1],
            m.normalizer.mean[2].bits == IMAGENET_MEAN[2],
            m.normalizer.std[0].bits == IMAGENET_STD[0],
            m.normalizer.std[1].bits == IMAGENET_STD[1],
            m.normalizer.std[2].bits == IMAGENET_STD[2],
            m.normalizer.order == TensorLayout::CHW,
            m.normalizer.color_order == ColorOrder::BGR,
            m.postprocessor == self.postprocess_config,
    {
        let resizer = DetResizeForTest {
            limit_side_len: self.preprocess_config.limit_side_len,
            limit_type: self.preprocess_config.limit_type,
            resize_long: self.preprocess_config.resize_long,
            max_side_limit: self.preprocess_config.max_side_limit,
        };
        let normalizer = NormalizeImage {
            scale: Float32 { bits: F32_INV_255 },
            mean: [
                Float32 { bits: IMAGENET_MEAN[0] },
                Float32 { bits: IMAGENET_MEAN[1] },
                Float32 { bits: IMAGENET_MEAN[2] },
            ],
            std: [
                Float32 { bits: IMAGENET_STD[0] },
                Float32 { bits: IMAGENET_STD[1] },
                Float32 { bits: IMAGENET_STD[2] },
            ],
            order: TensorLayout::CHW,
            color_order: ColorOrder::BGR,
        };
        DBModel::new(inference, resizer, normalizer, self.postprocess_config)
    }
}

impl DBModelBuilder {
    /// The builder of the DB model that runs a detection configuration: its
    /// side-length limits drive the resizer (the largest side becoming the
    /// resizer's upper limit), its thresholds, unclip ratio and candidate
    /// count drive the postprocessor, which otherwise keeps its defaults.
    pub fn for_detection(config: &TextDetectionConfig) -> (b: DBModelBuilder)
        ensures
            b.preprocess_config == (DBPreprocessConfig {
                limit_side_len: config.limit_side_len,
                limit_type: config.limit_type,
                max_side_limit: config.max_side_len,
                resize_long: None,
            }),
            b.postprocess_config == (DBPostprocessConfig {
                score_threshold: config.score_threshold,
                box_threshold: config.box_threshold,
                unclip_ratio: config.unclip_ratio,
                max_candidates: config.max_candidates,
                use_dilation: false,
                score_mode: ScoreMode::Fast,
                box_type: BoxType::Quad,
            }),
            b.ort_config is None,
    {
        DBModelBuilder {
            preprocess_config: DBPreprocessConfig {
                limit_side_len: config.limit_side_len,
                limit_type: config.limit_type,
                max_side_limit: config.max_side_len,
                resize_long: None,
            },
            postprocess_config: DBPostprocessConfig {
                score_threshold: config.score_threshold,
                box_threshold: config.box_threshold,
                unclip_ratio: config.unclip_ratio,
                max_candidates: config.max_candidates,
                use_dilation: false,
                score_mode: ScoreMode::Fast,
                box_type: BoxType::Quad,
            },
            ort_config: None,
        }
    }
}

impl Default for DBModelBuilder {
    fn default() -> (b: DBModelBuilder)
        ensures
            b.preprocess_config == (DBPreprocessConfig {
                limit_side_len: None,
                limit_type: None,
                max_side_limit: None,
                resize_long: None,
            }),
            b.postprocess_config == (DBPostprocessConfig {
                score_threshold: Float32 { bits: F32_0_3 },
                box_threshold: Float32 { bits: F32_0_7 },
                unclip_ratio: Float32 { bits: F32_1_5 },
                max_candidates: 1000,
                use_dilation: false,
                score_mode: ScoreMode::Fast,
                box_type: BoxType::Quad,
            }),
            b.ort_config is None,
    {
        DBModelBuilder::new()
    }
}

} // verus!
