use lens_sdk::error::{LensError, SdkError};
use lens_sdk::params::{acknowledge, parameter_of, Parameters};
use lens_sdk::transport::{nil_ptr, to_mem};
use lens_sdk::{EOS_TYPE_ID, ERROR_TYPE_ID, JSON_TYPE_ID};
use serde_json::Value;

fn json(text: &str) -> Value {
    serde_json::from_str(text).unwrap()
}

fn error_buffer(text: &str) -> Vec<u8> {
    to_mem(ERROR_TYPE_ID, text.as_bytes())
}

#[test]
fn get_before_set_fails() {
    let channel: Parameters<u32> = Parameters::new();
    assert_eq!(channel.get(), Err(LensError::ParametersNotSetError));
    assert_eq!(channel.get(), Err(LensError::ParametersNotSetError));
    assert_eq!(channel.get().unwrap_err().to_string(), "Parameters have not been set.");
}

#[test]
fn get_after_set_gives_what_was_set() {
    let mut channel = Parameters::new();
    channel.set(("src".to_string(), "dst".to_string()));
    assert_eq!(channel.get(), Ok(&("src".to_string(), "dst".to_string())));
    assert_eq!(channel.get(), Ok(&("src".to_string(), "dst".to_string())));
    channel.set(("a".to_string(), "b".to_string()));
    assert_eq!(channel.get(), Ok(&("a".to_string(), "b".to_string())));
    assert_eq!(channel.get(), Ok(&("a".to_string(), "b".to_string())));
}

#[test]
fn parameter_of_reads_the_value() {
    let buffer = to_mem(JSON_TYPE_ID, b"{\"src\":\"x\",\"dst\":\"y\"}");
    assert_eq!(parameter_of(buffer).unwrap(), json("{\"src\":\"x\",\"dst\":\"y\"}"));
}

#[test]
fn parameter_of_a_buffer_without_a_value_fails() {
    for buffer in [nil_ptr(), to_mem(EOS_TYPE_ID, &[]), to_mem(JSON_TYPE_ID, b"null")] {
        assert!(matches!(
            parameter_of(buffer),
            Err(SdkError::Lens(LensError::ParametersNotSetError))
        ));
    }
    assert!(matches!(
        parameter_of(error_buffer("no")),
        Err(SdkError::Lens(LensError::InputErrorUnsupportedError))
    ));
    assert!(matches!(parameter_of(vec![1u8, 1]), Err(SdkError::Io(_))));
    assert!(matches!(parameter_of(to_mem(JSON_TYPE_ID, b"{")), Err(SdkError::Json(_))));
}

#[test]
fn try_set_param_stores_the_value() {
    let mut channel = Parameters::new();
    channel.try_set_param(to_mem(JSON_TYPE_ID, b"{\"src\":\"x\"}")).unwrap();
    assert_eq!(channel.get(), Ok(&json("{\"src\":\"x\"}")));
    channel.try_set_param(to_mem(JSON_TYPE_ID, b"[1]")).unwrap();
    assert_eq!(channel.get(), Ok(&json("[1]")));
}

#[test]
fn try_set_param_keeps_what_was_held_on_failure() {
    let mut channel = Parameters::new();
    assert!(matches!(
        channel.try_set_param(nil_ptr()),
        Err(SdkError::Lens(LensError::ParametersNotSetError))
    ));
    assert_eq!(channel.get(), Err(LensError::ParametersNotSetError));
    channel.set(json("7"));
    assert!(matches!(channel.try_set_param(to_mem(JSON_TYPE_ID, b"{")), Err(SdkError::Json(_))));
    assert!(matches!(channel.try_set_param(vec![]), Err(SdkError::Io(_))));
    assert_eq!(channel.get(), Ok(&json("7")));
}

#[test]
fn set_param_answers_nil_or_an_error_buffer() {
    let mut channel = Parameters::new();
    assert_eq!(channel.set_param(to_mem(JSON_TYPE_ID, b"{\"a\":1}")), vec![0u8]);
    assert_eq!(channel.get(), Ok(&json("{\"a\":1}")));

    assert_eq!(channel.set_param(nil_ptr()), error_buffer("Parameters have not been set."));
    assert_eq!(
        channel.set_param(error_buffer("x")),
        error_buffer("Using errors as inputs is currently unsupported.")
    );
    let expected = serde_json::from_slice::<Option<Value>>(b"{").unwrap_err().to_string();
    assert_eq!(channel.set_param(to_mem(JSON_TYPE_ID, b"{")), error_buffer(&expected));
    assert_eq!(channel.get(), Ok(&json("{\"a\":1}")));
}

#[test]
fn acknowledge_each_result() {
    assert_eq!(acknowledge(Ok(())), vec![0u8]);
    assert_eq!(
        acknowledge(Err(SdkError::Lens(LensError::ParametersNotSetError))),
        error_buffer("Parameters have not been set.")
    );
    let io = std::io::Error::from(std::io::ErrorKind::UnexpectedEof);
    let expected = io.to_string();
    assert_eq!(acknowledge(Err(SdkError::Io(io))), error_buffer(&expected));
}
