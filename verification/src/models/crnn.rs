//! The CRNN text recognition model.

use vstd::prelude::*;
use crate::config::OrtSessionConfig;

verus! {

/// How text line images are prepared for recognition.
#[derive(Clone, Copy, Debug)]
pub struct CRNNPreprocessConfig {
    /// Model input shape `[channels, height, width]`.
    pub model_input_shape: [usize; 3],
    /// Widest image the model accepts (`None`: no limit beyond the default).
    pub max_img_w: Option<usize>,
}

impl Default for CRNNPreprocessConfig {
    fn default() -> (c: CRNNPreprocessConfig)
        ensures
            c.model_input_shape@ == seq![3usize, 48, 320],
            c.max_img_w is None,
    {
        let c = CRNNPreprocessConfig { model_input_shape: [3, 48, 320], max_img_w: None };
        assert(c.model_input_shape@ =~= seq![3usize, 48, 320]);
        c
    }
}

/// The resizing applied before recognition: images are scaled to the height
/// of `rec_image_shape` and padded to a common width of at most `max_img_w`.
#[derive(Clone, Copy, Debug)]
pub struct OCRResize {
    pub rec_image_shape: [usize; 3],
    pub max_img_w: Option<usize>,
}

/// The CTC decoder settings: the character list (`None`: the built-in
/// default list) and whether a space character is appended to it.
#[derive(Debug)]
pub struct CTCLabelDecode {
    pub character_list: Option<Vec<String>>,
    pub use_space_char: bool,
}

/// The CRNN recognition model: an inference engine with its resizer and
/// CTC decoder.
#[derive(Debug)]
pub struct CRNNModel<I> {
    pub inference: I,
    pub resizer: OCRResize,
    pub decoder: CTCLabelDecode,
}

impl<I> CRNNModel<I> {
    /// A model made of the given parts.
    pub fn new(inference: I, resizer: OCRResize, decoder: CTCLabelDecode) -> (m: CRNNModel<I>)
        ensures
            m.inference == inference,
            m.resizer == resizer,
            m.decoder == decoder,
    {
        CRNNModel { inference, resizer, decoder }
    }
}

/// Builder for a CRNN model.
#[derive(Debug)]
pub struct CRNNModelBuilder {
    pub preprocess_config: CRNNPreprocessConfig,
    pub character_dict: Option<Vec<String>>,
    pub ort_config: Option<OrtSessionConfig>,
}

impl CRNNModelBuilder {
    /// A builder with the default input shape, the built-in character list
    /// and no session options.
    pub fn new() -> (b: CRNNModelBuilder)
        ensures
            b.preprocess_config.model_input_shape@ == seq![3usize, 48, 320],
            b.preprocess_config.max_img_w is None,
            b.character_dict is None,
            b.ort_config is None,
    {
        CRNNModelBuilder {
            preprocess_config: CRNNPreprocessConfig::default(),
            character_dict: None,
            ort_config: None,
        }
    }

    /// Sets the preprocessing configuration.
    pub fn preprocess_config(self, config: CRNNPreprocessConfig) -> (b: CRNNModelBuilder)
        ensures
            b == (CRNNModelBuilder { preprocess_config: config, ..self }),
    {
        CRNNModelBuilder { preprocess_config: config, ..self }
    }

    /// Sets the model input shape.
    pub fn model_input_shape(self, shape: [usize; 3]) -> (b: CRNNModelBuilder)
        ensures
            b == (CRNNModelBuilder {
                preprocess_config: CRNNPreprocessConfig {
                    model_input_shape: shape,
                    ..self.preprocess_config
                },
                ..self
            }),
    {
        let mut b = self;
        b.preprocess_config.model_input_shape = shape;
        b
    }

    /// Sets the character dictionary.
    pub fn character_dict(self, character_dict: Vec<String>) -> (b: CRNNModelBuilder)
        ensures
            b == (CRNNModelBuilder { character_dict: Some(character_dict), ..self }),
    {
        CRNNModelBuilder { character_dict: Some(character_dict), ..self }
    }

    /// Sets the widest image the model accepts.
    pub fn max_img_w(self, max_img_w: usize) -> (b: CRNNModelBuilder)
        ensures
            b == (CRNNModelBuilder {
                preprocess_config: CRNNPreprocessConfig {
                    max_img_w: Some(max_img_w),
                    ..self.preprocess_config
                },
                ..self
            }),
    {
        let mut b = self;
        b.preprocess_config.max_img_w = Some(max_img_w);
        b
    }

    /// Sets the ONNX Runtime session options.
    pub fn with_ort_config(self, config: OrtSessionConfig) -> (b: CRNNModelBuilder)
        ensures
            b == (CRNNModelBuilder { ort_config: Some(config), ..self }),
    {
        CRNNModelBuilder { ort_config: Some(config), ..self }
    }

    /// Builds the model around `inference`, the session that was loaded with
    /// this builder's session options: the resizer takes the input shape and
    /// width limit, and the decoder the character dictionary (or the built-in
    /// list when none was set), with a space character appended.
    pub fn build<I>(self, inference: I) -> (m: CRNNModel<I>)
        ensures
            m.inference == inference,
            m.resizer == (OCRResize {
                rec_image_shape: self.preprocess_config.model_input_shape,
                max_img_w: self.preprocess_config.max_img_w,
            }),
            m.decoder == (CTCLabelDecode {
                character_list: self.character_dict,
                use_space_char: true,
            }),
    {
        let resizer = OCRResize {
            rec_image_shape: self.preprocess_config.model_input_shape,
            max_img_w: self.preprocess_config.max_img_w,
        };
        let decoder = CTCLabelDecode { character_list: self.character_dict, use_space_char: true };
        CRNNModel::new(inference, resizer, decoder)
    }
}

impl Default for CRNNModelBuilder {
    fn default() -> (b: CRNNModelBuilder)
        ensures
            b.preprocess_config.model_input_shape@ == seq![3usize, 48, 320],
            b.preprocess_config.max_img_w is None,
            b.character_dict is None,
            b.ort_config is None,
    {
        CRNNModelBuilder::new()
    }
}

} // verus!
