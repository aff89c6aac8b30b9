//! Configuration records: what a model is, where its weights live and how it is tuned.

use crate::text::{parse_decimal, same_strings, same_text, string_views, written_size};
use vstd::prelude::*;
use vstd::std_specs::cmp::PartialEqSpecImpl;

verus! {

/// The closed set of model families the assistant knows how to describe.
#[derive(Clone, Copy, Debug, PartialEq, Eq, Hash, Structural)]
pub enum ModelArchitecture {
    Bloom,
    Gpt2,
    GptJ,
    GptNeoX,
    Llama,
    Mpt,
    Falcon,
}

impl Default for ModelArchitecture {
    fn default() -> (architecture: Self)
        ensures
            architecture == ModelArchitecture::Llama,
    {
        ModelArchitecture::Llama
    }
}

/// Why a piece of text could not be read as one of a closed set of names.
#[derive(Clone, Copy, Debug, PartialEq, Eq, Structural)]
pub enum ParseError {
    /// The text is not the name of any variant.
    VariantNotFound,
}

impl ModelArchitecture {
    /// The name under which a family is written and read.
    pub open spec fn spec_name(self) -> Seq<char> {
        match self {
            ModelArchitecture::Bloom => "Bloom"@,
            ModelArchitecture::Gpt2 => "Gpt2"@,
            ModelArchitecture::GptJ => "GptJ"@,
            ModelArchitecture::GptNeoX => "GptNeoX"@,
            ModelArchitecture::Llama => "Llama"@,
            ModelArchitecture::Mpt => "Mpt"@,
            ModelArchitecture::Falcon => "Falcon"@,
        }
    }

    /// The family that a piece of text names, if it names one. Names are
    /// matched exactly, letter case included.
    pub open spec fn spec_from_str(text: Seq<char>) -> Option<ModelArchitecture> {
        if text == "Bloom"@ {
            Some(ModelArchitecture::Bloom)
        } else if text == "Gpt2"@ {
            Some(ModelArchitecture::Gpt2)
        } else if text == "GptJ"@ {
            Some(ModelArchitecture::GptJ)
        } else if text == "GptNeoX"@ {
            Some(ModelArchitecture::GptNeoX)
        } else if text == "Llama"@ {
            Some(ModelArchitecture::Llama)
        } else if text == "Mpt"@ {
            Some(ModelArchitecture::Mpt)
        } else if text == "Falcon"@ {
            Some(ModelArchitecture::Falcon)
        } else {
            None
        }
    }

    /// The name of this family.
    pub fn name(&self) -> (name: &'static str)
        ensures
            name@ == self.spec_name(),
    {
        match self {
            ModelArchitecture::Bloom => "Bloom",
            ModelArchitecture::Gpt2 => "Gpt2",
            ModelArchitecture::GptJ => "GptJ",
            ModelArchitecture::GptNeoX => "GptNeoX",
            ModelArchitecture::Llama => "Llama",
            ModelArchitecture::Mpt => "Mpt",
            ModelArchitecture::Falcon => "Falcon",
        }
    }

    /// Reads the name of a family.
    pub fn from_str(text: &str) -> (parsed: Result<ModelArchitecture, ParseError>)
        ensures
            parsed == match ModelArchitecture::spec_from_str(text@) {
                Some(architecture) => Ok::<ModelArchitecture, ParseError>(architecture),
                None => Err(ParseError::VariantNotFound),
            },
    {
        if same_text(text, "Bloom") {
            Ok(ModelArchitecture::Bloom)
        } else if same_text(text, "Gpt2") {
            Ok(ModelArchitecture::Gpt2)
        } else if same_text(text, "GptJ") {
            Ok(ModelArchitecture::GptJ)
        } else if same_text(text, "GptNeoX") {
            Ok(ModelArchitecture::GptNeoX)
        } else if same_text(text, "Llama") {
            Ok(ModelArchitecture::Llama)
        } else if same_text(text, "Mpt") {
            Ok(ModelArchitecture::Mpt)
        } else if same_text(text, "Falcon") {
            Ok(ModelArchitecture::Falcon)
        } else {
            Err(ParseError::VariantNotFound)
        }
    }

    /// Every family is read back from its own name.
    pub proof fn lemma_name_round_trip(architecture: ModelArchitecture)
        ensures
            ModelArchitecture::spec_from_str(architecture.spec_name()) == Some(architecture),
    {
        reveal_strlit("Bloom");
        reveal_strlit("Gpt2");
        reveal_strlit("GptJ");
        reveal_strlit("GptNeoX");
        reveal_strlit("Llama");
        reveal_strlit("Mpt");
        reveal_strlit("Falcon");
        assert("GptNeoX"@.len() == 7 && "Llama"@.len() == 5 && "Mpt"@.len() == 3);
        assert("Bloom"@[0] == 'B' && "Llama"@[0] == 'L');
        assert("Gpt2"@[3] == '2' && "GptJ"@[3] == 'J');
    }
}

/// Where the tokenizer of a model comes from.
#[derive(Debug)]
pub enum TokenizerSource {
    /// The tokenizer stored inside the model file.
    Embedded,
    /// A tokenizer file on disk, given by its path.
    HuggingFaceTokenizerFile(String),
    /// A tokenizer fetched by its remote identifier.
    HuggingFaceRemote(String),
    /// A tokenizer definition given inline.
    HuggingFaceTokenizerString(String),
}

/// Mathematical value of a [`TokenizerSource`].
pub enum TokenizerSourceView {
    Embedded,
    HuggingFaceTokenizerFile(Seq<char>),
    HuggingFaceRemote(Seq<char>),
    HuggingFaceTokenizerString(Seq<char>),
}

impl View for TokenizerSource {
    type V = TokenizerSourceView;

    open spec fn view(&self) -> TokenizerSourceView {
        match self {
            TokenizerSource::Embedded => TokenizerSourceView::Embedded,
            TokenizerSource::HuggingFaceTokenizerFile(path) =>
                TokenizerSourceView::HuggingFaceTokenizerFile(path@),
            TokenizerSource::HuggingFaceRemote(id) => TokenizerSourceView::HuggingFaceRemote(id@),
            TokenizerSource::HuggingFaceTokenizerString(text) =>
                TokenizerSourceView::HuggingFaceTokenizerString(text@),
        }
    }
}

impl Clone for TokenizerSource {
    fn clone(&self) -> (copy: Self)
        ensures
            copy@ == self@,
    {
        match self {
            TokenizerSource::Embedded => TokenizerSource::Embedded,
            TokenizerSource::HuggingFaceTokenizerFile(path) =>
                TokenizerSource::HuggingFaceTokenizerFile(path.clone()),
            TokenizerSource::HuggingFaceRemote(id) => TokenizerSource::HuggingFaceRemote(id.clone()),
            TokenizerSource::HuggingFaceTokenizerString(text) =>
                TokenizerSource::HuggingFaceTokenizerString(text.clone()),
        }
    }
}

impl PartialEq for TokenizerSource {
    fn eq(&self, other: &Self) -> (equal: bool) {
        match (self, other) {
            (TokenizerSource::Embedded, TokenizerSource::Embedded) => true,
            (
                TokenizerSource::HuggingFaceTokenizerFile(a),
                TokenizerSource::HuggingFaceTokenizerFile(b),
            ) => *a == *b,
            (TokenizerSource::HuggingFaceRemote(a), TokenizerSource::HuggingFaceRemote(b)) => *a
                == *b,
            (
                TokenizerSource::HuggingFaceTokenizerString(a),
                TokenizerSource::HuggingFaceTokenizerString(b),
            ) => *a == *b,
            _ => false,
        }
    }
}

impl PartialEqSpecImpl for TokenizerSource {
    open spec fn obeys_eq_spec() -> bool {
        true
    }

    open spec fn eq_spec(&self, other: &Self) -> bool {
        self@ == other@
    }
}

impl Default for TokenizerSource {
    fn default() -> (source: Self)
        ensures
            source@ == TokenizerSourceView::Embedded,
    {
        TokenizerSource::Embedded
    }
}

/// A named description of a model: its family, the location of its weights and
/// the origin of its tokenizer. The name identifies the record.
#[derive(Debug)]
pub struct ModelConfig {
    pub name: String,
    pub model_architecture: ModelArchitecture,
    pub model_path: String,
    pub tokenizer_source: TokenizerSource,
}

/// Mathematical value of a [`ModelConfig`].
pub struct ModelConfigView {
    pub name: Seq<char>,
    pub model_architecture: ModelArchitecture,
    pub model_path: Seq<char>,
    pub tokenizer_source: TokenizerSourceView,
}

impl View for ModelConfig {
    type V = ModelConfigView;

    open spec fn view(&self) -> ModelConfigView {
        ModelConfigView {
            name: self.name@,
            model_architecture: self.model_architecture,
            model_path: self.model_path@,
            tokenizer_source: self.tokenizer_source@,
        }
    }
}

impl ModelConfigView {
    /// The record every new form starts from: no name, no path, a LLaMA model
    /// with its embedded tokenizer.
    pub open spec fn blank() -> ModelConfigView {
        ModelConfigView {
            name: Seq::empty(),
            model_architecture: ModelArchitecture::Llama,
            model_path: Seq::empty(),
            tokenizer_source: TokenizerSourceView::Embedded,
        }
    }
}

impl Clone for ModelConfig {
    fn clone(&self) -> (copy: Self)
        ensures
            copy@ == self@,
    {
        ModelConfig {
            name: self.name.clone(),
            model_architecture: self.model_architecture,
            model_path: self.model_path.clone(),
            tokenizer_source: self.tokenizer_source.clone(),
        }
    }
}

impl PartialEq for ModelConfig {
    fn eq(&self, other: &Self) -> (equal: bool) {
        self.name == other.name && self.model_architecture == other.model_architecture
            && self.model_path == other.model_path && self.tokenizer_source
            == other.tokenizer_source
    }
}

impl PartialEqSpecImpl for ModelConfig {
    open spec fn obeys_eq_spec() -> bool {
        true
    }

    open spec fn eq_spec(&self, other: &Self) -> bool {
        self@ == other@
    }
}

impl Default for ModelConfig {
    fn default() -> (config: Self)
        ensures
            config@ == ModelConfigView::blank(),
    {
        ModelConfig {
            name: String::new(),
            model_architecture: ModelArchitecture::Llama,
            model_path: String::new(),
            tokenizer_source: TokenizerSource::Embedded,
        }
    }
}

impl ModelConfig {
    /// A blank record, ready to be filled in.
    pub fn new() -> (config: Self)
        ensures
            config@ == ModelConfigView::blank(),
    {
        ModelConfig::default()
    }
}

/// The views of a sequence of records, in the same order.
pub open spec fn config_views(configs: Seq<ModelConfig>) -> Seq<ModelConfigView> {
    configs.map_values(|config: ModelConfig| config@)
}

/// Smallest context window a model can be asked to use.
pub const MIN_CONTEXT_SIZE: usize = 512;

/// Largest context window a model can be asked to use.
pub const MAX_CONTEXT_SIZE: usize = 4096;

/// Context window used when the user has not chosen one.
pub const DEFAULT_CONTEXT_SIZE: usize = 2048;

/// Runtime preferences handed to the inference engine when a model is loaded.
/// They belong to one load and are not part of any stored record.
#[derive(Debug)]
pub struct ModelParameters {
    pub prefer_mmap: bool,
    pub context_size: usize,
    pub lora_adapters: Option<Vec<String>>,
    pub use_gpu: bool,
    pub gpu_layers: Option<usize>,
}

/// Mathematical value of a [`ModelParameters`].
pub struct ModelParametersView {
    pub prefer_mmap: bool,
    pub context_size: usize,
    pub lora_adapters: Option<Seq<Seq<char>>>,
    pub use_gpu: bool,
    pub gpu_layers: Option<usize>,
}

impl View for ModelParameters {
    type V = ModelParametersView;

    open spec fn view(&self) -> ModelParametersView {
        ModelParametersView {
            prefer_mmap: self.prefer_mmap,
            context_size: self.context_size,
            lora_adapters: match self.lora_adapters {
                Some(paths) => Some(string_views(paths@)),
                None => None,
            },
            use_gpu: self.use_gpu,
            gpu_layers: self.gpu_layers,
        }
    }
}

impl ModelParametersView {
    /// Memory-mapped weights, a context of [`DEFAULT_CONTEXT_SIZE`] tokens, no
    /// adapters and no GPU.
    pub open spec fn standard() -> ModelParametersView {
        ModelParametersView {
            prefer_mmap: true,
            context_size: DEFAULT_CONTEXT_SIZE,
            lora_adapters: None,
            use_gpu: false,
            gpu_layers: None,
        }
    }

    /// Whether the context window lies within the supported bounds.
    pub open spec fn context_size_in_range(self) -> bool {
        MIN_CONTEXT_SIZE <= self.context_size <= MAX_CONTEXT_SIZE
    }
}

impl Clone for ModelParameters {
    fn clone(&self) -> (copy: Self)
        ensures
            copy@ == self@,
    {
        let lora_adapters = match &self.lora_adapters {
            Some(paths) => {
                let copied = paths.clone();
                Some(copied)
            },
            None => None,
        };
        ModelParameters {
            prefer_mmap: self.prefer_mmap,
            context_size: self.context_size,
            lora_adapters,
            use_gpu: self.use_gpu,
            gpu_layers: self.gpu_layers,
        }
    }
}

impl PartialEq for ModelParameters {
    fn eq(&self, other: &Self) -> (equal: bool) {
        let same_adapters = match (&self.lora_adapters, &other.lora_adapters) {
            (Some(left), Some(right)) => same_strings(left, right),
            (None, None) => true,
            _ => false,
        };
        let same_layers = match (self.gpu_layers, other.gpu_layers) {
            (Some(left), Some(right)) => left == right,
            (None, None) => true,
            _ => false,
        };
        self.prefer_mmap == other.prefer_mmap && self.context_size == other.context_size
            && same_adapters && self.use_gpu == other.use_gpu && same_layers
    }
}

impl PartialEqSpecImpl for ModelParameters {
    open spec fn obeys_eq_spec() -> bool {
        true
    }

    open spec fn eq_spec(&self, other: &Self) -> bool {
        self@ == other@
    }
}

impl Default for ModelParameters {
    fn default() -> (parameters: Self)
        ensures
            parameters@ == ModelParametersView::standard(),
    {
        ModelParameters {
            prefer_mmap: true,
            context_size: DEFAULT_CONTEXT_SIZE,
            lora_adapters: None,
            use_gpu: false,
            gpu_layers: None,
        }
    }
}

impl ModelParameters {
    /// Whether the context window lies within the supported bounds.
    pub fn context_size_in_range(&self) -> (in_range: bool)
        ensures
            in_range == self@.context_size_in_range(),
    {
        MIN_CONTEXT_SIZE <= self.context_size && self.context_size <= MAX_CONTEXT_SIZE
    }
}

/// Reads the context size that a form hands over as text. A text that
/// writes no size is read as zero.
pub fn parse_context_size(text: &str) -> (size: usize)
    ensures
        size == match written_size(text@) {
            Some(written) => written,
            None => 0,
        },
{
    match parse_decimal(text) {
        Some(written) => written,
        None => 0,
    }
}

} // verus!
