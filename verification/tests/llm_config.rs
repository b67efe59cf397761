use tensorrt_rs::data_type::DataType;
use tensorrt_rs::llm::config::{positive_usize, required_usize, Config, RawBuildConfig, RawConfig, RawPretrainedConfig};

fn pretrained(dtype: Option<&str>, vocab_size: Option<usize>, hidden_size: Option<usize>) -> Option<RawPretrainedConfig> {
    Some(RawPretrainedConfig { dtype: dtype.map(str::to_owned), vocab_size, hidden_size })
}

fn build(max_batch_size: usize, max_num_tokens: usize, max_prompt_embedding_table_size: usize) -> RawBuildConfig {
    RawBuildConfig { max_batch_size, max_num_tokens, max_prompt_embedding_table_size }
}

#[test]
fn parses_minimal_config() {
    let raw = RawConfig {
        pretrained_config: pretrained(Some("bfloat16"), Some(32000), Some(4096)),
        build_config: build(1, 2048, 512),
    };
    let config = Config::from_raw(raw).unwrap();
    assert_eq!(config.data_type(), DataType::Bf16);
    assert_eq!(config.vocab_size(), 32000);
    assert_eq!(config.hidden_size(), 4096);
    assert_eq!(config.max_batch_size(), 1);
    assert_eq!(config.max_num_tokens(), 2048);
    assert_eq!(config.max_prompt_embedding_table_size(), 512);
}

#[test]
fn missing_prompt_table_size_reads_as_zero() {
    let raw = RawConfig { pretrained_config: pretrained(Some("float16"), Some(10), Some(4)), build_config: build(2, 16, 0) };
    let config = Config::from_raw(raw).unwrap();
    assert_eq!(config.data_type(), DataType::Half);
    assert_eq!(config.max_prompt_embedding_table_size(), 0);
}

#[test]
fn rejects_missing_pretrained_config() {
    let raw = RawConfig { pretrained_config: None, build_config: build(1, 2048, 0) };
    let error = Config::from_raw(raw).unwrap_err();
    assert!(error.to_string().contains("missing pretrained_config"));
}

#[test]
fn rejects_unsupported_dtype() {
    let raw = RawConfig { pretrained_config: pretrained(Some("float64"), Some(32000), Some(4096)), build_config: build(1, 2048, 0) };
    let error = Config::from_raw(raw).unwrap_err();
    assert!(error.to_string().contains("dtype"));
    assert_eq!(error.to_string(), "TensorRT-LLM model dtype \"float64\" is not supported");
}

#[test]
fn rejects_missing_required_pretrained_fields() {
    let missing_dtype = RawConfig { pretrained_config: pretrained(None, Some(32000), Some(4096)), build_config: build(1, 2048, 0) };
    assert!(Config::from_raw(missing_dtype).unwrap_err().to_string().contains("dtype"));

    let missing_vocab = RawConfig { pretrained_config: pretrained(Some("float16"), None, Some(4096)), build_config: build(1, 2048, 0) };
    assert!(Config::from_raw(missing_vocab).unwrap_err().to_string().contains("vocab_size"));

    let missing_hidden = RawConfig { pretrained_config: pretrained(Some("float16"), Some(32000), None), build_config: build(1, 2048, 0) };
    assert!(Config::from_raw(missing_hidden).unwrap_err().to_string().contains("hidden_size"));
}

#[test]
fn rejects_zero_build_limits() {
    let raw = RawConfig { pretrained_config: pretrained(Some("float16"), Some(32000), Some(4096)), build_config: build(0, 2048, 0) };
    let error = Config::from_raw(raw).unwrap_err();
    assert!(error.to_string().contains("max_batch_size"));

    let raw = RawConfig { pretrained_config: pretrained(Some("float16"), Some(32000), Some(4096)), build_config: build(1, 0, 0) };
    let error = Config::from_raw(raw).unwrap_err();
    assert!(error.to_string().contains("max_num_tokens"));
}

#[test]
fn config_field_helpers_name_the_field() {
    assert_eq!(required_usize(Some(3), "x").unwrap(), 3);
    assert_eq!(required_usize(None, "pretrained_config.vocab_size").unwrap_err().to_string(), "TensorRT-LLM config is missing pretrained_config.vocab_size");
    assert_eq!(positive_usize(4, "x").unwrap(), 4);
    assert_eq!(positive_usize(0, "build_config.max_num_tokens").unwrap_err().to_string(), "TensorRT-LLM config build_config.max_num_tokens must be greater than zero");
}
