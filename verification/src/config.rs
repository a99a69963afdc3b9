//! Plain configuration values shared by the models and the pipeline.

use vstd::prelude::*;

verus! {

/// A single-precision number held by its IEEE-754 bit pattern, so that
/// thresholds and ratios travel through the library unchanged.
#[derive(Clone, Copy, Debug, PartialEq, Eq, Structural)]
pub struct Float32 {
    pub bits: u32,
}

impl Float32 {
    /// The number whose bit pattern is `bits`.
    pub fn from_bits(bits: u32) -> (f: Float32)
        ensures
            f.bits == bits,
    {
        Float32 { bits }
    }
}

/// Which side of an image a side-length limit applies to.
#[derive(Clone, Copy, Debug, PartialEq, Eq, Structural)]
pub enum LimitType {
    /// The shorter side is scaled up to at least the limit.
    Min,
    /// The longer side is scaled down to at most the limit.
    Max,
}

/// Where a model comes from: a file path, or the raw bytes of the model.
#[derive(Clone, Debug)]
pub enum ModelSource {
    Path(String),
    Bytes(Vec<u8>),
}

impl ModelSource {
    /// A model read from the file at `path`.
    pub fn path(path: &str) -> (m: ModelSource)
        ensures
            m matches ModelSource::Path(p) && p@ == path@,
    {
        ModelSource::Path(String::from_str(path))
    }

    /// A model given by its bytes.
    pub fn bytes(bytes: Vec<u8>) -> (m: ModelSource)
        ensures
            m == ModelSource::Bytes(bytes),
    {
        ModelSource::Bytes(bytes)
    }

    /// The path of the model, when it comes from a file.
    pub fn as_path(&self) -> (p: Option<&str>)
        ensures
            match *self {
                ModelSource::Path(path) => p matches Some(s) && s@ == path@,
                ModelSource::Bytes(_) => p is None,
            },
    {
        match self {
            ModelSource::Path(path) => Some(path.as_str()),
            ModelSource::Bytes(_) => None,
        }
    }
}

/// A hardware backend ONNX Runtime can run a model on.
#[derive(Clone, Copy, Debug, PartialEq, Eq, Structural)]
pub enum ExecutionProvider {
    /// The default CPU backend.
    CPU,
    /// NVIDIA CUDA on the given device.
    CUDA { device_id: i32 },
    /// NVIDIA TensorRT on the given device.
    TensorRT { device_id: i32 },
    /// DirectML (Windows) on the given device.
    DirectML { device_id: i32 },
    /// Core ML (Apple platforms).
    CoreML,
    /// Intel OpenVINO.
    OpenVINO,
}

/// ONNX Runtime session options applied to every model of a pipeline.
#[derive(Clone, Debug, PartialEq, Eq)]
pub struct OrtSessionConfig {
    /// Threads used inside one operator (`None`: the runtime's choice).
    pub intra_threads: Option<usize>,
    /// Threads used across operators (`None`: the runtime's choice).
    pub inter_threads: Option<usize>,
    /// Backends to try, in order of preference (empty: the CPU backend).
    pub execution_providers: Vec<ExecutionProvider>,
}

impl OrtSessionConfig {
    /// A configuration that leaves every choice to the runtime.
    pub fn new() -> (c: OrtSessionConfig)
        ensures
            c.intra_threads is None,
            c.inter_threads is None,
            c.execution_providers@.len() == 0,
    {
        OrtSessionConfig { intra_threads: None, inter_threads: None, execution_providers: Vec::new() }
    }

    /// Adds `provider` after the backends already chosen.
    pub fn with_execution_provider(self, provider: ExecutionProvider) -> (c: OrtSessionConfig)
        ensures
            c.intra_threads == self.intra_threads,
            c.inter_threads == self.inter_threads,
            c.execution_providers@ == self.execution_providers@.push(provider),
    {
        let mut c = self;
        c.execution_providers.push(provider);
        c
    }
}

/// Settings of the text detection task.
#[derive(Clone, Copy, Debug, PartialEq, Eq, Structural)]
pub struct TextDetectionConfig {
    /// Pixel-level threshold for text.
    pub score_threshold: Float32,
    /// Box-level threshold for keeping a detection.
    pub box_threshold: Float32,
    /// Expansion ratio of detected regions.
    pub unclip_ratio: Float32,
    /// Maximum number of candidate detections.
    pub max_candidates: usize,
    /// Side-length limit of the resized input.
    pub limit_side_len: Option<u32>,
    /// Which side the limit applies to.
    pub limit_type: Option<LimitType>,
    /// Largest side length the input is ever resized to.
    pub max_side_len: Option<u32>,
}

/// Bit pattern of `0.3f32`.
pub const F32_0_3: u32 = 0x3e99999a;

/// Bit pattern of `0.6f32`.
pub const F32_0_6: u32 = 0x3f19999a;

/// Bit pattern of `1.5f32`.
pub const F32_1_5: u32 = 0x3fc00000;

/// The detection settings that hold when none are given.
pub open spec fn default_detection_config() -> TextDetectionConfig {
    TextDetectionConfig {
        score_threshold: Float32 { bits: F32_0_3 },
        box_threshold: Float32 { bits: F32_0_6 },
        unclip_ratio: Float32 { bits: F32_1_5 },
        max_candidates: 1000,
        limit_side_len: None,
        limit_type: None,
        max_side_len: None,
    }
}

impl Default for TextDetectionConfig {
    fn default() -> (c: TextDetectionConfig)
        ensures
            c == default_detection_config(),
    {
        TextDetectionConfig {
            score_threshold: Float32 { bits: F32_0_3 },
            box_threshold: Float32 { bits: F32_0_6 },
            unclip_ratio: Float32 { bits: F32_1_5 },
            max_candidates: 1000,
            limit_side_len: None,
            limit_type: None,
            max_side_len: None,
        }
    }
}

/// Settings of the text recognition task.
#[derive(Clone, Copy, Debug, PartialEq, Eq, Structural)]
pub struct TextRecognitionConfig {
    /// Recognitions scoring below this are dropped.
    pub score_threshold: Float32,
}

} // verus!
