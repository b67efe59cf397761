//! The engine's `config.json`, as parsed into plain values, and the settings
//! the executor bindings read from it.

use vstd::prelude::*;
use crate::data_type::{DataType, spec_from_binding_dtype};
use crate::llm::error::{Error, is_invalid_argument};
use crate::text::{join2, join3, str_debug, str_debug_text};

verus! {

/// The `pretrained_config` object of `config.json`.
#[derive(Clone, Debug)]
pub struct RawPretrainedConfig {
    pub dtype: Option<String>,
    pub vocab_size: Option<usize>,
    pub hidden_size: Option<usize>,
}

/// The `build_config` object of `config.json`; a missing
/// `max_prompt_embedding_table_size` reads as zero.
#[derive(Clone, Debug)]
pub struct RawBuildConfig {
    pub max_batch_size: usize,
    pub max_num_tokens: usize,
    pub max_prompt_embedding_table_size: usize,
}

/// The parsed `config.json`.
#[derive(Clone, Debug)]
pub struct RawConfig {
    pub pretrained_config: Option<RawPretrainedConfig>,
    pub build_config: RawBuildConfig,
}

/// The settings of an engine that requests are checked against.
#[derive(Clone, Debug)]
pub struct Config {
    pub data_type: DataType,
    pub vocab_size: usize,
    pub hidden_size: usize,
    pub max_batch_size: usize,
    pub max_num_tokens: usize,
    pub max_prompt_embedding_table_size: usize,
}

/// A required field: its value, or the error that it is missing.
pub fn required_usize(value: Option<usize>, field: &str) -> (r: Result<usize, Error>)
    ensures
        value matches Some(v) ==> r == Ok::<usize, Error>(v),
        value is None ==> (r matches Err(e) && is_invalid_argument(e, "TensorRT-LLM config is missing "@ + field@)),
{
    match value {
        Some(v) => Ok(v),
        None => Err(Error::InvalidArgument(join2("TensorRT-LLM config is missing ", field))),
    }
}

/// A limit that must be positive: its value, or the error that it is zero.
pub fn positive_usize(value: usize, field: &str) -> (r: Result<usize, Error>)
    ensures
        value > 0 ==> r == Ok::<usize, Error>(value),
        value == 0 ==> (r matches Err(e) && is_invalid_argument(
            e,
            "TensorRT-LLM config "@ + field@ + " must be greater than zero"@,
        )),
{
    if value == 0 {
        return Err(Error::InvalidArgument(join3("TensorRT-LLM config ", field, " must be greater than zero")));
    }
    Ok(value)
}

/// The outcome of reading the settings from a parsed `config.json`.
pub open spec fn config_outcome(raw: RawConfig, r: Result<Config, Error>) -> bool {
    match raw.pretrained_config {
        None => r matches Err(e) && is_invalid_argument(e, "TensorRT-LLM config is missing pretrained_config"@),
        Some(p) => match p.dtype {
            None => r matches Err(e) && is_invalid_argument(
                e,
                "TensorRT-LLM config is missing pretrained_config.dtype"@,
            ),
            Some(dtype) => match spec_from_binding_dtype(dtype@) {
                None => r matches Err(e) && is_invalid_argument(
                    e,
                    "TensorRT-LLM model dtype "@ + str_debug(dtype@) + " is not supported"@,
                ),
                Some(data_type) => if p.vocab_size is None {
                    r matches Err(e) && is_invalid_argument(
                        e,
                        "TensorRT-LLM config is missing pretrained_config.vocab_size"@,
                    )
                } else if p.hidden_size is None {
                    r matches Err(e) && is_invalid_argument(
                        e,
                        "TensorRT-LLM config is missing pretrained_config.hidden_size"@,
                    )
                } else if raw.build_config.max_batch_size == 0 {
                    r matches Err(e) && is_invalid_argument(
                        e,
                        "TensorRT-LLM config build_config.max_batch_size must be greater than zero"@,
                    )
                } else if raw.build_config.max_num_tokens == 0 {
                    r matches Err(e) && is_invalid_argument(
                        e,
                        "TensorRT-LLM config build_config.max_num_tokens must be greater than zero"@,
                    )
                } else {
                    r matches Ok(c) && c == (Config {
                        data_type,
                        vocab_size: p.vocab_size->0,
                        hidden_size: p.hidden_size->0,
                        max_batch_size: raw.build_config.max_batch_size,
                        max_num_tokens: raw.build_config.max_num_tokens,
                        max_prompt_embedding_table_size: raw.build_config.max_prompt_embedding_table_size,
                    })
                },
            },
        },
    }
}

impl Config {
    /// Reads the settings from a parsed `config.json`: the model's data type,
    /// vocabulary and hidden sizes, and the positive batch and token limits.
    pub fn from_raw(raw: RawConfig) -> (r: Result<Config, Error>)
        ensures
            config_outcome(raw, r),
    {
        proof {
            reveal_strlit("TensorRT-LLM config is missing ");
            reveal_strlit("pretrained_config.vocab_size");
            reveal_strlit("pretrained_config.hidden_size");
            reveal_strlit("TensorRT-LLM config is missing pretrained_config.vocab_size");
            reveal_strlit("TensorRT-LLM config is missing pretrained_config.hidden_size");
            reveal_strlit("TensorRT-LLM config ");
            reveal_strlit("build_config.max_batch_size");
            reveal_strlit("build_config.max_num_tokens");
            reveal_strlit(" must be greater than zero");
            reveal_strlit("TensorRT-LLM config build_config.max_batch_size must be greater than zero");
            reveal_strlit("TensorRT-LLM config build_config.max_num_tokens must be greater than zero");
            assert("TensorRT-LLM config is missing "@ + "pretrained_config.vocab_size"@
                =~= "TensorRT-LLM config is missing pretrained_config.vocab_size"@);
            assert("TensorRT-LLM config is missing "@ + "pretrained_config.hidden_size"@
                =~= "TensorRT-LLM config is missing pretrained_config.hidden_size"@);
            assert("TensorRT-LLM config "@ + "build_config.max_batch_size"@ + " must be greater than zero"@
                =~= "TensorRT-LLM config build_config.max_batch_size must be greater than zero"@);
            assert("TensorRT-LLM config "@ + "build_config.max_num_tokens"@ + " must be greater than zero"@
                =~= "TensorRT-LLM config build_config.max_num_tokens must be greater than zero"@);
        }
        let pretrained = match raw.pretrained_config {
            Some(p) => p,
            None => return Err(Error::invalid_argument("TensorRT-LLM config is missing pretrained_config")),
        };
        let dtype = match pretrained.dtype {
            Some(d) => d,
            None => return Err(Error::invalid_argument("TensorRT-LLM config is missing pretrained_config.dtype")),
        };
        let data_type = match DataType::from_binding_dtype(dtype.as_str()) {
            Some(d) => d,
            None => {
                let quoted = str_debug_text(dtype.as_str());
                return Err(Error::InvalidArgument(join3("TensorRT-LLM model dtype ", quoted.as_str(), " is not supported")));
            },
        };
        let vocab_size = match required_usize(pretrained.vocab_size, "pretrained_config.vocab_size") {
            Ok(v) => v,
            Err(e) => return Err(e),
        };
        let hidden_size = match required_usize(pretrained.hidden_size, "pretrained_config.hidden_size") {
            Ok(v) => v,
            Err(e) => return Err(e),
        };
        let max_batch_size = match positive_usize(raw.build_config.max_batch_size, "build_config.max_batch_size") {
            Ok(v) => v,
            Err(e) => return Err(e),
        };
        let max_num_tokens = match positive_usize(raw.build_config.max_num_tokens, "build_config.max_num_tokens") {
            Ok(v) => v,
            Err(e) => return Err(e),
        };
        Ok(Config {
            data_type,
            vocab_size,
            hidden_size,
            max_batch_size,
            max_num_tokens,
            max_prompt_embedding_table_size: raw.build_config.max_prompt_embedding_table_size,
        })
    }

    /// The model's data type.
    pub fn data_type(&self) -> (r: DataType)
        ensures
            r == self.data_type,
    {
        self.data_type
    }

    /// The vocabulary size.
    pub fn vocab_size(&self) -> (r: usize)
        ensures
            r == self.vocab_size,
    {
        self.vocab_size
    }

    /// The hidden size.
    pub fn hidden_size(&self) -> (r: usize)
        ensures
            r == self.hidden_size,
    {
        self.hidden_size
    }

    /// The batch size limit.
    pub fn max_batch_size(&self) -> (r: usize)
        ensures
            r == self.max_batch_size,
    {
        self.max_batch_size
    }

    /// The token limit.
    pub fn max_num_tokens(&self) -> (r: usize)
        ensures
            r == self.max_num_tokens,
    {
        self.max_num_tokens
    }

    /// The size of the prompt embedding table.
    pub fn max_prompt_embedding_table_size(&self) -> (r: usize)
        ensures
            r == self.max_prompt_embedding_table_size,
    {
        self.max_prompt_embedding_table_size
    }
}

} // verus!
