//! The OCR pipeline builder and the decisions of the OCR runtime.

use vstd::prelude::*;
use crate::config::{
    default_detection_config, Float32, LimitType, ModelSource, OrtSessionConfig,
    TextDetectionConfig, TextRecognitionConfig, F32_0_3, F32_0_6,
};
use crate::error::OCRError;
use crate::text::{character_dict_lines, decimal, text_lines, usize_to_decimal};

verus! {

/// Bit pattern of `0.2f32`.
pub const F32_0_2: u32 = 0x3e4ccccd;

/// Bit pattern of `0.4f32`.
pub const F32_0_4: u32 = 0x3ecccccd;

/// Bit pattern of `0.5f32`.
pub const F32_0_5: u32 = 0x3f000000;

/// Bit pattern of `2.0f32`.
pub const F32_2_0: u32 = 0x40000000;

/// `true` when `size` is an acceptable batch size.
pub open spec fn batch_size_ok(size: usize) -> bool {
    1 <= size <= OAROCRBuilder::MAX_BATCH_SIZE
}

/// `e` is the error reported for the batch size `size` of `field`: raised by
/// the builder, naming the field, the accepted range and the value.
pub open spec fn batch_size_error(e: OCRError, field: Seq<char>, size: usize) -> bool {
    e matches OCRError::ValidationError { component: c, field: f, expected: x, actual: a }
        && c@ == "OAROCRBuilder"@ && f@ == field && x@ == "1..="@ + decimal(
        OAROCRBuilder::MAX_BATCH_SIZE as nat,
    ) && a@ == decimal(size as nat)
}

/// Both optional batch sizes are acceptable where they are set.
pub open spec fn batch_sizes_ok(image: Option<usize>, region: Option<usize>) -> bool {
    (image matches Some(s) ==> batch_size_ok(s)) && (region matches Some(s) ==> batch_size_ok(s))
}

/// `e` is the error for the first unacceptable batch size: the image batch
/// size when it is wrong, else the region batch size.
pub open spec fn batch_sizes_error(e: OCRError, image: Option<usize>, region: Option<usize>) -> bool {
    match image {
        Some(s) if !batch_size_ok(s) => batch_size_error(e, "image_batch_size"@, s),
        _ => match region {
            Some(s) => batch_size_error(e, "region_batch_size"@, s),
            None => false,
        },
    }
}

/// The characters of an optional string.
pub open spec fn optional_text(s: Option<String>) -> Option<Seq<char>> {
    match s {
        Some(t) => Some(t@),
        None => None,
    }
}

/// The detection settings the pipeline runs with: the explicit settings when
/// there are any, otherwise the defaults of the text type (`"table"`,
/// `"seal"`, or anything else, which counts as general text).
pub open spec fn pipeline_detection_config(
    explicit: Option<TextDetectionConfig>,
    text_type: Option<Seq<char>>,
) -> TextDetectionConfig {
    match explicit {
        Some(c) => c,
        None => {
            let kind = match text_type {
                Some(t) => t,
                None => "general"@,
            };
            if kind == "table"@ {
                TextDetectionConfig {
                    score_threshold: Float32 { bits: F32_0_3 },
                    box_threshold: Float32 { bits: F32_0_4 },
                    unclip_ratio: Float32 { bits: F32_2_0 },
                    max_candidates: 1000,
                    limit_side_len: Some(960),
                    limit_type: Some(LimitType::Max),
                    max_side_len: Some(4000),
                }
            } else if kind == "seal"@ {
                TextDetectionConfig {
                    score_threshold: Float32 { bits: F32_0_2 },
                    box_threshold: Float32 { bits: F32_0_6 },
                    unclip_ratio: Float32 { bits: F32_0_5 },
                    max_candidates: 1000,
                    limit_side_len: Some(736),
                    limit_type: Some(LimitType::Min),
                    max_side_len: Some(4000),
                }
            } else {
                TextDetectionConfig {
                    score_threshold: Float32 { bits: F32_0_3 },
                    box_threshold: Float32 { bits: F32_0_6 },
                    unclip_ratio: Float32 { bits: F32_2_0 },
                    max_candidates: 1000,
                    limit_side_len: Some(960),
                    limit_type: Some(LimitType::Max),
                    max_side_len: Some(4000),
                }
            }
        },
    }
}

/// An explicit detection configuration is used as given, whatever the text
/// type; without one, the text type alone decides the settings.
pub proof fn law_explicit_detection_config_wins(
    config: TextDetectionConfig,
    text_type: Option<Seq<char>>,
    other_type: Option<Seq<char>>,
)
    ensures
        pipeline_detection_config(Some(config), text_type) == config,
        pipeline_detection_config(Some(config), text_type) == pipeline_detection_config(
            Some(config),
            other_type,
        ),
{
}

/// Builder for an OCR pipeline: the models it runs and how it runs them.
#[derive(Debug)]
pub struct OAROCRBuilder {
    pub text_detection_model: ModelSource,
    pub text_recognition_model: ModelSource,
    pub character_dict_path: String,
    pub character_dict_content: Option<String>,
    pub document_orientation_model: Option<ModelSource>,
    pub text_line_orientation_model: Option<ModelSource>,
    pub document_rectification_model: Option<ModelSource>,
    pub ort_session_config: Option<OrtSessionConfig>,
    pub text_detection_config: Option<TextDetectionConfig>,
    pub text_recognition_config: Option<TextRecognitionConfig>,
    pub image_batch_size: Option<usize>,
    pub region_batch_size: Option<usize>,
    pub text_type: Option<String>,
    pub return_word_box: bool,
}

impl OAROCRBuilder {
    /// The largest batch size the builder accepts.
    pub const MAX_BATCH_SIZE: usize = 4096;

    /// A builder with the required models and the dictionary path; every
    /// optional component is off and every setting is left to its default.
    pub fn new(
        text_detection_model: ModelSource,
        text_recognition_model: ModelSource,
        character_dict_path: &str,
    ) -> (b: OAROCRBuilder)
        ensures
            b.text_detection_model == text_detection_model,
            b.text_recognition_model == text_recognition_model,
            b.character_dict_path@ == character_dict_path@,
            b.character_dict_content is None,
            b.document_orientation_model is None,
            b.text_line_orientation_model is None,
            b.document_rectification_model is None,
            b.ort_session_config is None,
            b.text_detection_config is None,
            b.text_recognition_config is None,
            b.image_batch_size is None,
            b.region_batch_size is None,
            b.text_type is None,
            !b.return_word_box,
    {
        OAROCRBuilder {
            text_detection_model,
            text_recognition_model,
            character_dict_path: String::from_str(character_dict_path),
            character_dict_content: None,
            document_orientation_model: None,
            text_line_orientation_model: None,
            document_rectification_model: None,
            ort_session_config: None,
            text_detection_config: None,
            text_recognition_config: None,
            image_batch_size: None,
            region_batch_size: None,
            text_type: None,
            return_word_box: false,
        }
    }

    /// Gives the character dictionary as text; the dictionary path is then
    /// not read.
    pub fn character_dict_content(self, content: &str) -> (b: OAROCRBuilder)
        ensures
            b.character_dict_content matches Some(c) && c@ == content@,
            b == (OAROCRBuilder { character_dict_content: b.character_dict_content, ..self }),
    {
        OAROCRBuilder { character_dict_content: Some(String::from_str(content)), ..self }
    }

    /// Sets the ONNX Runtime session options of every model.
    pub fn ort_session(self, config: OrtSessionConfig) -> (b: OAROCRBuilder)
        ensures
            b == (OAROCRBuilder { ort_session_config: Some(config), ..self }),
    {
        OAROCRBuilder { ort_session_config: Some(config), ..self }
    }

    /// Sets the text detection settings explicitly.
    pub fn text_detection_config(self, config: TextDetectionConfig) -> (b: OAROCRBuilder)
        ensures
            b == (OAROCRBuilder { text_detection_config: Some(config), ..self }),
    {
        OAROCRBuilder { text_detection_config: Some(config), ..self }
    }

    /// Sets the text recognition settings.
    pub fn text_recognition_config(self, config: TextRecognitionConfig) -> (b: OAROCRBuilder)
        ensures
            b == (OAROCRBuilder { text_recognition_config: Some(config), ..self }),
    {
        OAROCRBuilder { text_recognition_config: Some(config), ..self }
    }

    /// Sets how many images go to text detection at once (checked when the
    /// pipeline is built).
    pub fn image_batch_size(self, size: usize) -> (b: OAROCRBuilder)
        ensures
            b == (OAROCRBuilder { image_batch_size: Some(size), ..self }),
    {
        OAROCRBuilder { image_batch_size: Some(size), ..self }
    }

    /// Sets how many text regions go to recognition at once (checked when the
    /// pipeline is built).
    pub fn region_batch_size(self, size: usize) -> (b: OAROCRBuilder)
        ensures
            b == (OAROCRBuilder { region_batch_size: Some(size), ..self }),
    {
        OAROCRBuilder { region_batch_size: Some(size), ..self }
    }

    /// Adds document orientation classification before detection.
    pub fn with_document_image_orientation_classification(self, model_source: ModelSource) -> (b:
        OAROCRBuilder)
        ensures
            b == (OAROCRBuilder { document_orientation_model: Some(model_source), ..self }),
    {
        OAROCRBuilder { document_orientation_model: Some(model_source), ..self }
    }

    /// Adds text line orientation classification after detection.
    pub fn with_text_line_orientation_classification(self, model_source: ModelSource) -> (b:
        OAROCRBuilder)
        ensures
            b == (OAROCRBuilder { text_line_orientation_model: Some(model_source), ..self }),
    {
        OAROCRBuilder { text_line_orientation_model: Some(model_source), ..self }
    }

    /// Adds document rectification before detection.
    pub fn with_document_image_rectification(self, model_source: ModelSource) -> (b:
        OAROCRBuilder)
        ensures
            b == (OAROCRBuilder { document_rectification_model: Some(model_source), ..self }),
    {
        OAROCRBuilder { document_rectification_model: Some(model_source), ..self }
    }

    /// Sets the text type (`"seal"`, `"table"`, ...), which chooses detection
    /// defaults and the sorting of detected boxes.
    pub fn text_type(self, text_type: &str) -> (b: OAROCRBuilder)
        ensures
            b.text_type matches Some(t) && t@ == text_type@,
            b == (OAROCRBuilder { text_type: b.text_type, ..self }),
    {
        OAROCRBuilder { text_type: Some(String::from_str(text_type)), ..self }
    }

    /// Turns word-level boxes on or off.
    pub fn return_word_box(self, enable: bool) -> (b: OAROCRBuilder)
        ensures
            b == (OAROCRBuilder { return_word_box: enable, ..self }),
    {
        OAROCRBuilder { return_word_box: enable, ..self }
    }

    /// Checks one batch size: it must lie in `1..=MAX_BATCH_SIZE`.
    pub fn validate_batch_size(field: &str, size: usize) -> (r: Result<(), OCRError>)
        ensures
            r is Ok <==> batch_size_ok(size),
            r is Ok <==> 1 <= size && size <= 4096,
            r matches Err(e) ==> batch_size_error(e, field@, size),
    {
        if size == 0 || size > Self::MAX_BATCH_SIZE {
            let mut expected = String::from_str("1..=");
            let max = usize_to_decimal(Self::MAX_BATCH_SIZE);
            expected.append(max.as_str());
            let actual = usize_to_decimal(size);
            return Err(
                OCRError::validation_error(
                    "OAROCRBuilder",
                    field,
                    expected.as_str(),
                    actual.as_str(),
                ),
            );
        }
        Ok(())
    }

    /// Checks the batch sizes that were set, the image batch size first; a
    /// failure is the error `validate_batch_size` gives for that field.
    pub fn validate_batch_sizes(&self) -> (r: Result<(), OCRError>)
        ensures
            r is Ok <==> batch_sizes_ok(self.image_batch_size, self.region_batch_size),
            r matches Err(e) ==> batch_sizes_error(e, self.image_batch_size, self.region_batch_size),
    {
        if let Some(size) = self.image_batch_size {
            Self::validate_batch_size("image_batch_size", size)?;
        }
        if let Some(size) = self.region_batch_size {
            Self::validate_batch_size("region_batch_size", size)?;
        }
        Ok(())
    }

    /// The detection settings the built pipeline runs with.
    pub fn effective_detection_config(&self) -> (c: TextDetectionConfig)
        ensures
            c == pipeline_detection_config(self.text_detection_config, optional_text(self.text_type)),
            self.text_detection_config is None ==> c.max_candidates == 1000 && c.max_side_len
                == Some(4000u32),
    {
        match &self.text_detection_config {
            Some(c) => *c,
            None => {
                let mut cfg = TextDetectionConfig::default();
                let table = String::from_str("table");
                let seal = String::from_str("seal");
                let is_table = match &self.text_type {
                    Some(t) => *t == table,
                    None => false,
                };
                let is_seal = match &self.text_type {
                    Some(t) => *t == seal,
                    None => false,
                };
                proof {
                    reveal_strlit("general");
                    reveal_strlit("table");
                    reveal_strlit("seal");
                    assert("general"@.len() == 7 && "table"@.len() == 5 && "seal"@.len() == 4);
                }
                if is_table {
                    cfg.score_threshold = Float32 { bits: F32_0_3 };
                    cfg.box_threshold = Float32 { bits: F32_0_4 };
                    cfg.unclip_ratio = Float32 { bits: F32_2_0 };
                    if cfg.limit_side_len.is_none() {
                        cfg.limit_side_len = Some(960);
                    }
                    if cfg.limit_type.is_none() {
                        cfg.limit_type = Some(LimitType::Max);
                    }
                    if cfg.max_side_len.is_none() {
                        cfg.max_side_len = Some(4000);
                    }
                } else if is_seal {
                    cfg.score_threshold = Float32 { bits: F32_0_2 };
                    cfg.box_threshold = Float32 { bits: F32_0_6 };
                    cfg.unclip_ratio = Float32 { bits: F32_0_5 };
                    if cfg.limit_side_len.is_none() {
                        cfg.limit_side_len = Some(736);
                    }
                    if cfg.limit_type.is_none() {
                        cfg.limit_type = Some(LimitType::Min);
                    }
                    if cfg.max_side_len.is_none() {
                        cfg.max_side_len = Some(4000);
                    }
                } else {
                    cfg.score_threshold = Float32 { bits: F32_0_3 };
                    cfg.box_threshold = Float32 { bits: F32_0_6 };
                    cfg.unclip_ratio = Float32 { bits: F32_2_0 };
                    if cfg.limit_side_len.is_none() {
                        cfg.limit_side_len = Some(960);
                    }
                    if cfg.limit_type.is_none() {
                        cfg.limit_type = Some(LimitType::Max);
                    }
                    if cfg.max_side_len.is_none() {
                        cfg.max_side_len = Some(4000);
                    }
                }
                cfg
            },
        }
    }
}

/// What the text detector of a pipeline is built with.
#[derive(Debug)]
pub struct DetectionSettings {
    /// The detection settings it runs with.
    pub config: TextDetectionConfig,
    /// The text type the pipeline was built for; the runtime keeps it too,
    /// to choose how detected boxes are sorted.
    pub text_type: Option<String>,
}

/// What the text recognizer of a pipeline is built with.
#[derive(Debug)]
pub struct RecognitionSettings {
    /// The character dictionary, one entry per line of the dictionary text.
    pub character_dict: Vec<String>,
    /// Whether it reports where each character lies.
    pub return_word_box: bool,
    /// The recognition settings given to the builder, if any.
    pub config: Option<TextRecognitionConfig>,
}

/// Where the character dictionary is read from.
#[derive(Debug)]
pub enum DictionarySource<'a> {
    /// The dictionary text given to the builder.
    Text(&'a str),
    /// The file at this path.
    File(&'a str),
}

impl OAROCRBuilder {
    /// Where the dictionary comes from: the dictionary text when one was
    /// given, else the dictionary file.
    pub fn dictionary_source(&self) -> (d: DictionarySource<'_>)
        ensures
            match self.character_dict_content {
                Some(c) => d matches DictionarySource::Text(t) && t@ == c@,
                None => d matches DictionarySource::File(p) && p@ == self.character_dict_path@,
            },
    {
        match &self.character_dict_content {
            Some(content) => DictionarySource::Text(content.as_str()),
            None => DictionarySource::File(self.character_dict_path.as_str()),
        }
    }

    /// The settings of the text detector: the effective detection settings
    /// and the text type.
    pub fn detection_settings(&self) -> (d: DetectionSettings)
        ensures
            d.config == pipeline_detection_config(
                self.text_detection_config,
                optional_text(self.text_type),
            ),
            d.text_type == self.text_type,
    {
        let text_type = match &self.text_type {
            Some(t) => Some(t.clone()),
            None => None,
        };
        DetectionSettings { config: self.effective_detection_config(), text_type }
    }

    /// The settings of the text recognizer, given the text of the character
    /// dictionary (the builder's dictionary content, or else the contents of
    /// its dictionary file): the dictionary split into lines as `str::lines`
    /// splits it, the word-box switch, and the recognition settings unchanged.
    pub fn recognition_settings(&self, dictionary_text: &str) -> (r: RecognitionSettings)
        ensures
            r.character_dict.deep_view() == text_lines(dictionary_text@),
            r.return_word_box == self.return_word_box,
            r.config == self.text_recognition_config,
    {
        RecognitionSettings {
            character_dict: character_dict_lines(dictionary_text),
            return_word_box: self.return_word_box,
            config: self.text_recognition_config,
        }
    }
}

impl OAROCRBuilder {
    /// The runtime that runs `pipeline` with this builder's settings, once
    /// its batch sizes pass the check; otherwise the check's error.
    pub fn into_ocr<P>(self, pipeline: P) -> (r: Result<OAROCR<P>, OCRError>)
        ensures
            r is Ok <==> batch_sizes_ok(self.image_batch_size, self.region_batch_size),
            r matches Ok(ocr) ==> ocr.pipeline == pipeline && ocr.text_type == self.text_type
                && ocr.return_word_box == self.return_word_box && ocr.image_batch_size
                == self.image_batch_size && ocr.region_batch_size == self.region_batch_size,
            r matches Err(e) ==> batch_sizes_error(e, self.image_batch_size, self.region_batch_size),
    {
        self.validate_batch_sizes()?;
        Ok(
            OAROCR {
                pipeline,
                text_type: self.text_type,
                return_word_box: self.return_word_box,
                image_batch_size: self.image_batch_size,
                region_batch_size: self.region_batch_size,
            },
        )
    }
}

/// The lower-case form of `s` under Unicode case mapping.
pub uninterp spec fn unicode_lowercase(s: Seq<char>) -> Seq<char>;

/// `str::to_lowercase`: maps every character to its Unicode lower case; the
/// result depends on the text alone.
#[verifier::external_body]
fn to_lowercase(s: &str) -> (r: String)
    ensures
        r@ == unicode_lowercase(s@),
{
    s.to_lowercase()
}

/// `true` for characters in the CJK unified ideograph blocks: the basic block,
/// extension A, and extensions B, C and D.
pub open spec fn cjk_code_point(u: u32) -> bool {
    ||| 0x4E00 <= u <= 0x9FFF
    ||| 0x3400 <= u <= 0x4DBF
    ||| 0x20000 <= u <= 0x2A6DF
    ||| 0x2A700 <= u <= 0x2B73F
    ||| 0x2B740 <= u <= 0x2B81F
}

/// The batch size a run uses: the configured one, else the model's
/// recommendation, and never less than one.
pub open spec fn chosen_batch_size(configured: Option<usize>, recommended: usize) -> usize {
    let n = match configured {
        Some(s) => s,
        None => recommended,
    };
    if n >= 1 { n } else { 1 }
}

/// A batch size that passed the builder's check is used exactly as given,
/// whatever the model recommends.
pub proof fn law_validated_batch_size_is_used(size: usize, recommended: usize)
    requires
        batch_size_ok(size),
    ensures
        chosen_batch_size(Some(size), recommended) == size,
{
}

/// How word boxes of one recognized line are derived.
#[derive(Clone, Copy, Debug, PartialEq, Eq, Structural)]
pub enum WordBoxSource {
    /// From the CTC column of each character.
    CtcColumns,
    /// From normalized character positions, spread evenly.
    CharPositions,
    /// No word boxes for this line.
    Unavailable,
}

/// The configured OCR runtime: a pipeline of models and the settings it
/// runs with.
#[derive(Debug)]
pub struct OAROCR<P> {
    pub pipeline: P,
    pub text_type: Option<String>,
    pub return_word_box: bool,
    /// Images per text detection call (`None`: the detector's own choice).
    pub image_batch_size: Option<usize>,
    /// Text regions per recognition call (`None`: the recognizer's own choice).
    pub region_batch_size: Option<usize>,
}

impl<P> OAROCR<P> {
    /// Checks that there is at least one image to process.
    pub fn validate_image_count(count: usize) -> (r: Result<(), OCRError>)
        ensures
            r is Ok <==> count > 0,
            r matches Err(e) ==> e matches OCRError::ValidationError {
                component: c,
                field: f,
                expected: x,
                actual: a,
            } && c@ == "OCR Pipeline"@ && f@ == "images"@ && x@ == "non-empty slice"@ && a@
                == "empty slice"@,
    {
        if count == 0 {
            return Err(
                OCRError::validation_error(
                    "OCR Pipeline",
                    "images",
                    "non-empty slice",
                    "empty slice",
                ),
            );
        }
        Ok(())
    }

    /// `true` when `lowercased` names seal text.
    pub fn is_seal_type_name(lowercased: &String) -> (r: bool)
        ensures
            r == (lowercased@ == "seal"@),
    {
        *lowercased == String::from_str("seal")
    }

    /// `true` when detected boxes are sorted as seal text (polygons); the
    /// text type is compared case-insensitively.
    pub fn is_seal_text(&self) -> (r: bool)
        ensures
            r == (self.text_type matches Some(t) && unicode_lowercase(t@) == "seal"@),
    {
        match &self.text_type {
            Some(t) => {
                let lower = to_lowercase(t.as_str());
                Self::is_seal_type_name(&lower)
            },
            None => false,
        }
    }

    /// Images per text detection call: the configured batch size, else the
    /// detector's recommendation, and never less than one.
    pub fn detection_batch_size(&self, recommended: usize) -> (n: usize)
        ensures
            n == chosen_batch_size(self.image_batch_size, recommended),
    {
        let n = match self.image_batch_size {
            Some(s) => s,
            None => recommended,
        };
        if n >= 1 { n } else { 1 }
    }

    /// Text regions per recognition call: the configured batch size, else
    /// the recognizer's recommendation, and never less than one.
    pub fn recognition_batch_size(&self, recommended: usize) -> (n: usize)
        ensures
            n == chosen_batch_size(self.region_batch_size, recommended),
    {
        let n = match self.region_batch_size {
            Some(s) => s,
            None => recommended,
        };
        if n >= 1 { n } else { 1 }
    }

    /// How the word boxes of one recognized line are derived: from CTC
    /// columns when word boxes are on and columns and a sequence length are
    /// known, else from character positions when there are some, else none.
    pub fn word_box_source(
        &self,
        col_index_count: usize,
        sequence_length: usize,
        char_position_count: usize,
    ) -> (w: WordBoxSource)
        ensures
            w == (if self.return_word_box && col_index_count > 0 && sequence_length > 0 {
                WordBoxSource::CtcColumns
            } else if self.return_word_box && char_position_count > 0 {
                WordBoxSource::CharPositions
            } else {
                WordBoxSource::Unavailable
            }),
    {
        if self.return_word_box && col_index_count > 0 && sequence_length > 0 {
            WordBoxSource::CtcColumns
        } else if self.return_word_box && char_position_count > 0 {
            WordBoxSource::CharPositions
        } else {
            WordBoxSource::Unavailable
        }
    }

    /// The character each of `count` word boxes stands for: the `i`-th
    /// character of `text`, or `'?'` past its end.
    pub fn box_characters(text: &str, count: usize) -> (chars: Vec<char>)
        ensures
            chars@.len() == count,
            forall|i: int|
                0 <= i < count ==> #[trigger] chars@[i] == (if i < text@.len() {
                    text@[i]
                } else {
                    '?'
                }),
    {
        let mut chars: Vec<char> = Vec::new();
        for c in it: text.chars()
            invariant
                it.seq() == text@,
                chars@.len() == if it.index() <= count { it.index() as int } else { count as int },
                forall|i: int| 0 <= i < chars@.len() ==> #[trigger] chars@[i] == text@[i],
        {
            if chars.len() < count {
                chars.push(c);
            }
        }
        while chars.len() < count
            invariant
                chars@.len() <= count,
                chars@.len() >= count || chars@.len() >= text@.len(),
                forall|i: int|
                    0 <= i < chars@.len() ==> #[trigger] chars@[i] == (if i < text@.len() {
                        text@[i]
                    } else {
                        '?'
                    }),
            decreases count - chars@.len(),
        {
            chars.push('?');
        }
        chars
    }

    /// `true` when `c` is a CJK ideograph; such characters get boxes of the
    /// average character width centred on their column.
    pub fn is_cjk(c: char) -> (r: bool)
        ensures
            r == cjk_code_point(c as u32),
            r <==> (0x4E00 <= c as u32 <= 0x9FFF || 0x3400 <= c as u32 <= 0x4DBF || 0x20000
                <= c as u32 <= 0x2A6DF || 0x2A700 <= c as u32 <= 0x2B81F),
    {
        let u = c as u32;
        (0x4E00 <= u && u <= 0x9FFF) || (0x3400 <= u && u <= 0x4DBF) || (0x20000 <= u && u
            <= 0x2A6DF) || (0x2A700 <= u && u <= 0x2B73F) || (0x2B740 <= u && u <= 0x2B81F)
    }
}

/// What the detection loop does after trying one batch of images.
#[derive(Clone, Copy, Debug, PartialEq, Eq, Structural)]
pub enum DetectionAction {
    /// The batch was detected; go on with the batch that starts at `start`.
    NextBatch { start: usize },
    /// The batch failed as a whole; detect images `from..to` one by one, and
    /// go on after `to`.
    PerImage { from: usize, to: usize },
}

/// The step after the batch of images `start..end` was sent to the detector:
/// on success the next batch starts at `end`; on failure the same images are
/// detected one at a time.
pub fn after_batch_detection(start: usize, end: usize, batch_ok: bool) -> (a: DetectionAction)
    ensures
        a == (if batch_ok {
            DetectionAction::NextBatch { start: end }
        } else {
            DetectionAction::PerImage { from: start, to: end }
        }),
{
    if batch_ok {
        DetectionAction::NextBatch { start: end }
    } else {
        DetectionAction::PerImage { from: start, to: end }
    }
}

/// The most cropped regions held before they are recognized.
pub const MAX_POOLED_CROPS: usize = 4096;

/// `true` when the pool of cropped regions is full and must be recognized
/// before more regions are added.
pub fn must_flush_pool(pooled: usize) -> (b: bool)
    ensures
        b == (pooled >= MAX_POOLED_CROPS),
        b == (pooled >= 4096),
{
    pooled >= MAX_POOLED_CROPS
}

/// A batch size is acceptable exactly when it lies between 1 and 4096.
pub proof fn law_batch_size_bounds(size: usize)
    ensures
        batch_size_ok(size) <==> 1 <= size && size <= 4096,
        batch_sizes_ok(Some(size), None) <==> 1 <= size && size <= 4096,
        batch_sizes_ok(None, Some(size)) <==> 1 <= size && size <= 4096,
        batch_sizes_ok(None, None),
{
}

/// The CJK classification covers exactly the unified ideograph blocks: the
/// basic block `U+4E00..=U+9FFF`, extension A `U+3400..=U+4DBF`, extension B
/// `U+20000..=U+2A6DF` and extensions C and D `U+2A700..=U+2B81F`; no other
/// code point is CJK.
pub proof fn law_cjk_blocks(u: u32)
    ensures
        0x4E00 <= u <= 0x9FFF ==> cjk_code_point(u),
        0x3400 <= u <= 0x4DBF ==> cjk_code_point(u),
        0x20000 <= u <= 0x2A6DF ==> cjk_code_point(u),
        0x2A700 <= u <= 0x2B81F ==> cjk_code_point(u),
        cjk_code_point(u) ==> (0x4E00 <= u <= 0x9FFF || 0x3400 <= u <= 0x4DBF || 0x20000 <= u
            <= 0x2A6DF || 0x2A700 <= u <= 0x2B81F),
{
}

/// Without explicit detection settings, the text type changes only what it
/// names: every text type keeps the default candidate count (1000) and the
/// largest side of 4000; general text (no text type, or one other than
/// `"table"` and `"seal"`) uses thresholds 0.3 / 0.6, unclip ratio 2.0 and a
/// longest side of at most 960; tables differ from general text only in a
/// box threshold of 0.4; seals use 0.2 / 0.6, unclip ratio 0.5 and a shortest
/// side of at least 736.
pub proof fn law_detection_defaults(text_type: Option<Seq<char>>)
    ensures
        pipeline_detection_config(None, text_type).max_candidates
            == default_detection_config().max_candidates,
        default_detection_config().max_candidates == 1000,
        pipeline_detection_config(None, text_type).max_side_len == Some(4000u32),
        pipeline_detection_config(None, None) == (TextDetectionConfig {
            score_threshold: Float32 { bits: F32_0_3 },
            box_threshold: Float32 { bits: F32_0_6 },
            unclip_ratio: Float32 { bits: F32_2_0 },
            max_candidates: 1000,
            limit_side_len: Some(960),
            limit_type: Some(LimitType::Max),
            max_side_len: Some(4000),
        }),
        text_type != Some("table"@) && text_type != Some("seal"@) ==> pipeline_detection_config(
            None,
            text_type,
        ) == pipeline_detection_config(None, None),
        pipeline_detection_config(None, Some("table"@)) == (TextDetectionConfig {
            box_threshold: Float32 { bits: F32_0_4 },
            ..pipeline_detection_config(None, None)
        }),
        pipeline_detection_config(None, Some("seal"@)) == (TextDetectionConfig {
            score_threshold: Float32 { bits: F32_0_2 },
            box_threshold: Float32 { bits: F32_0_6 },
            unclip_ratio: Float32 { bits: F32_0_5 },
            max_candidates: 1000,
            limit_side_len: Some(736),
            limit_type: Some(LimitType::Min),
            max_side_len: Some(4000),
        }),
{
    reveal_strlit("general");
    reveal_strlit("table");
    reveal_strlit("seal");
    assert("general"@.len() == 7 && "table"@.len() == 5 && "seal"@.len() == 4);
}

} // verus!
