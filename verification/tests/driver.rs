use lens_sdk::driver::{answer, carry, fail, next, next_written, respond};
use lens_sdk::error::{LensError, SdkError};
use lens_sdk::input::InputIterator;
use lens_sdk::option::StreamOption;
use lens_sdk::params::Parameters;
use lens_sdk::transport::{nil_ptr, to_mem, try_from_mem};
use lens_sdk::{EOS_TYPE_ID, ERROR_TYPE_ID, JSON_TYPE_ID};
use serde_json::Value;
use std::cell::{Cell, RefCell};
use std::collections::VecDeque;
use std::error::Error;

fn json(text: &str) -> Value {
    serde_json::from_str(text).unwrap()
}

fn value_buffer(value: &Value) -> Vec<u8> {
    to_mem(JSON_TYPE_ID, &serde_json::to_vec(value).unwrap())
}

fn end_buffer() -> Vec<u8> {
    to_mem(EOS_TYPE_ID, &[])
}

fn error_buffer(text: &str) -> Vec<u8> {
    to_mem(ERROR_TYPE_ID, text.as_bytes())
}

fn person(name: &str, kind: &str) -> Value {
    let mut fields = serde_json::Map::new();
    fields.insert("Name".to_string(), Value::String(name.to_string()));
    fields.insert("__type".to_string(), Value::String(kind.to_string()));
    Value::Object(fields)
}

/// A filter: yields the first input whose `__type` is `"pass"`.
fn try_transform<F: Fn() -> Vec<u8>>(
    iter: &mut InputIterator<F>,
) -> Result<StreamOption<Value>, Box<dyn Error>> {
    while let Some(item) = iter.next() {
        let input = match item.map_err(|error| error.to_string())? {
            Some(v) => v,
            None => continue,
        };

        if input["__type"] == "pass" {
            return Ok(StreamOption::Value(input));
        }
    }

    Ok(StreamOption::EndOfStream)
}

/// A rename: moves the value under `src` to `dst`, as the parameters say.
fn rename<F: Fn() -> Vec<u8>>(
    parameters: &Parameters<Value>,
    iter: &mut InputIterator<F>,
) -> Result<StreamOption<Value>, String> {
    let params = parameters.get().map_err(|error| error.to_string())?;
    let src = params["src"].as_str().unwrap().to_string();
    let dst = params["dst"].as_str().unwrap().to_string();

    while let Some(item) = iter.next() {
        let mut input = match item.map_err(|error| error.to_string())? {
            Some(Value::Object(fields)) => fields,
            Some(_) => return Err("The input is not an object.".to_string()),
            None => return Ok(StreamOption::Absent),
        };
        let value = input.remove(&src).ok_or(format!(
            "The requested property was not found. Requested: {}",
            src
        ))?;
        input.insert(dst, value);
        return Ok(StreamOption::Value(Value::Object(input)));
    }

    Ok(StreamOption::EndOfStream)
}

#[test]
fn test_try_transform_pass() {
    let input = RefCell::new(VecDeque::from(vec![
        value_buffer(&person("John", "pass")),
        end_buffer(),
    ]));
    let fetch = || input.borrow_mut().pop_front().unwrap();

    let result = try_transform(&mut InputIterator::new(fetch)).unwrap();

    assert_eq!(result, StreamOption::Value(person("John", "pass")));
}

#[test]
fn test_try_transform_skip() {
    let input = RefCell::new(VecDeque::from(vec![
        value_buffer(&person("Fred", "fail")),
        end_buffer(),
    ]));
    let fetch = || input.borrow_mut().pop_front().unwrap();

    let result = try_transform(&mut InputIterator::new(fetch)).unwrap();

    assert_eq!(result, StreamOption::EndOfStream);
}

#[test]
fn filter_returns_the_first_pass_after_two_pulls() {
    let upstream = RefCell::new(VecDeque::from(vec![
        to_mem(JSON_TYPE_ID, b"{\"__type\":\"fail\"}"),
        to_mem(JSON_TYPE_ID, b"{\"__type\":\"pass\"}"),
        end_buffer(),
    ]));
    let pulls = Cell::new(0usize);
    let fetch = || {
        pulls.set(pulls.get() + 1);
        upstream.borrow_mut().pop_front().unwrap()
    };

    let answer = next(fetch, try_transform);

    assert_eq!(answer, to_mem(JSON_TYPE_ID, b"{\"__type\":\"pass\"}"));
    assert_eq!(try_from_mem(answer).unwrap(), StreamOption::Value(json("{\"__type\":\"pass\"}")));
    assert_eq!(pulls.get(), 2);
    assert_eq!(upstream.borrow().len(), 1);
}

#[test]
fn filter_skips_absent_items() {
    let upstream = RefCell::new(VecDeque::from(vec![
        nil_ptr(),
        to_mem(JSON_TYPE_ID, b"null"),
        value_buffer(&person("Ann", "pass")),
        end_buffer(),
    ]));
    let fetch = || upstream.borrow_mut().pop_front().unwrap();
    let answer = next(fetch, try_transform);
    assert_eq!(try_from_mem(answer).unwrap(), StreamOption::Value(person("Ann", "pass")));
}

#[test]
fn filter_at_the_end_of_the_stream_answers_end_of_stream() {
    let upstream = RefCell::new(VecDeque::from(vec![
        value_buffer(&person("Fred", "fail")),
        end_buffer(),
    ]));
    let pulls = Cell::new(0usize);
    let fetch = || {
        pulls.set(pulls.get() + 1);
        upstream.borrow_mut().pop_front().unwrap()
    };
    assert_eq!(next(fetch, try_transform), vec![127u8]);
    assert_eq!(pulls.get(), 2);
}

#[test]
fn filter_reports_an_input_that_cannot_be_read() {
    let upstream = RefCell::new(VecDeque::from(vec![error_buffer("upstream"), end_buffer()]));
    let fetch = || upstream.borrow_mut().pop_front().unwrap();
    let answer = next(fetch, try_transform);
    assert_eq!(answer, error_buffer("Using errors as inputs is currently unsupported."));
    assert_eq!(upstream.borrow().len(), 1);
}

#[test]
fn rename_moves_the_value_to_the_new_key() {
    let mut parameters = Parameters::new();
    assert_eq!(
        parameters.set_param(to_mem(JSON_TYPE_ID, b"{\"src\":\"x\",\"dst\":\"y\"}")),
        nil_ptr()
    );

    let upstream = RefCell::new(VecDeque::from(vec![to_mem(JSON_TYPE_ID, b"{\"x\": 5}")]));
    let fetch = || upstream.borrow_mut().pop_front().unwrap();
    let answer = next(fetch, |iter: &mut InputIterator<_>| rename(&parameters, iter));

    assert_eq!(answer, to_mem(JSON_TYPE_ID, b"{\"y\":5}"));
    assert_eq!(try_from_mem(answer).unwrap(), StreamOption::Value(json("{\"y\": 5}")));
}

#[test]
fn rename_keeps_the_other_keys() {
    let mut parameters = Parameters::new();
    parameters.set(json("{\"src\":\"x\",\"dst\":\"y\"}"));
    let upstream = RefCell::new(VecDeque::from(vec![to_mem(
        JSON_TYPE_ID,
        b"{\"a\":[1,2],\"x\":{\"deep\":true}}",
    )]));
    let fetch = || upstream.borrow_mut().pop_front().unwrap();
    let answer = next(fetch, |iter: &mut InputIterator<_>| rename(&parameters, iter));
    assert_eq!(
        try_from_mem(answer).unwrap(),
        StreamOption::Value(json("{\"a\":[1,2],\"y\":{\"deep\":true}}"))
    );
}

#[test]
fn rename_before_parameters_are_set_reports_it() {
    let parameters = Parameters::new();
    let pulls = Cell::new(0usize);
    let fetch = || {
        pulls.set(pulls.get() + 1);
        to_mem(JSON_TYPE_ID, b"{\"x\": 5}")
    };
    let answer = next(fetch, |iter: &mut InputIterator<_>| rename(&parameters, iter));
    assert_eq!(answer, error_buffer("Parameters have not been set."));
    assert_eq!(pulls.get(), 0);
}

#[test]
fn rename_reports_a_missing_property() {
    let mut parameters = Parameters::new();
    parameters.set(json("{\"src\":\"x\",\"dst\":\"y\"}"));
    let fetch = || to_mem(JSON_TYPE_ID, b"{\"z\": 5}");
    let answer = next(fetch, |iter: &mut InputIterator<_>| rename(&parameters, iter));
    assert_eq!(answer, error_buffer("The requested property was not found. Requested: x"));
}

#[test]
fn rename_of_an_absent_input_answers_nil() {
    let mut parameters = Parameters::new();
    parameters.set(json("{\"src\":\"x\",\"dst\":\"y\"}"));
    let answer = next(nil_ptr, |iter: &mut InputIterator<_>| rename(&parameters, iter));
    assert_eq!(answer, vec![0u8]);
    let answer = next(end_buffer, |iter: &mut InputIterator<_>| rename(&parameters, iter));
    assert_eq!(answer, vec![127u8]);
}

#[test]
fn respond_to_each_outcome() {
    assert_eq!(
        respond::<String>(Ok(StreamOption::Value(json("{\"b\":2,\"a\":1}")))),
        to_mem(JSON_TYPE_ID, b"{\"a\":1,\"b\":2}")
    );
    assert_eq!(respond::<String>(Ok(StreamOption::Absent)), vec![0u8]);
    assert_eq!(respond::<String>(Ok(StreamOption::EndOfStream)), vec![127u8]);
    assert_eq!(
        respond(Err("it failed".to_string())),
        vec![255u8, 9, 0, 0, 0, b'i', b't', b' ', b'f', b'a', b'i', b'l', b'e', b'd']
    );
}

#[test]
fn respond_writes_a_null_value_as_json() {
    let answer = respond::<String>(Ok(StreamOption::Value(Value::Null)));
    assert_eq!(answer, to_mem(JSON_TYPE_ID, b"null"));
    assert_eq!(try_from_mem(answer).unwrap(), StreamOption::Absent);
}

#[test]
fn respond_to_a_boxed_error() {
    let failure: Box<dyn Error> = Box::new(std::io::Error::other("disk on fire"));
    assert_eq!(respond(Err(failure)), error_buffer("disk on fire"));
}

#[test]
fn a_failed_serialization_is_reported_as_an_error_buffer() {
    let failure = serde_json::to_vec(&std::collections::BTreeMap::from([((1, 2), 3)]))
        .unwrap_err();
    let description = failure.to_string();
    assert!(!description.is_empty());
    let answer = carry(Err(failure));
    assert_eq!(answer[0], 255);
    assert_eq!(&answer[1..5], &(description.len() as u32).to_le_bytes());
    assert_eq!(String::from_utf8(answer[5..].to_vec()).unwrap(), description);
    assert_eq!(answer, error_buffer(&description));
    assert!(matches!(
        try_from_mem(answer),
        Err(SdkError::Lens(LensError::InputErrorUnsupportedError))
    ));
}

#[test]
fn answer_to_each_outcome() {
    let failure = serde_json::to_vec(&std::collections::BTreeMap::from([((1, 2), 3)]))
        .unwrap_err();
    let description = failure.to_string();
    assert_eq!(
        answer::<serde_json::Error, String>(Ok(StreamOption::Value(Ok(b"{\"b\":2}".to_vec())))),
        to_mem(JSON_TYPE_ID, b"{\"b\":2}")
    );
    assert_eq!(
        answer::<_, String>(Ok(StreamOption::Value(Err(failure)))),
        error_buffer(&description)
    );
    assert_eq!(answer::<String, String>(Ok(StreamOption::Absent)), vec![0u8]);
    assert_eq!(answer::<String, String>(Ok(StreamOption::EndOfStream)), vec![127u8]);
    assert_eq!(answer::<String, _>(Err("it failed")), error_buffer("it failed"));
}

#[test]
fn respond_writes_the_value_that_the_transform_returned() {
    let value = json("{\"Name\":\"John\",\"Age\":32,\"Tags\":[\"a\",\"b\"]}");
    let text = serde_json::to_vec(&value).unwrap();
    let answer = respond::<String>(Ok(StreamOption::Value(value)));
    assert_eq!(answer[0], 1);
    assert_eq!(&answer[1..5], &(text.len() as u32).to_le_bytes());
    assert_eq!(&answer[5..], &text[..]);
}

#[test]
fn next_written_answers_with_the_text_as_it_was_written() {
    let upstream = RefCell::new(VecDeque::from(vec![
        to_mem(JSON_TYPE_ID, b"{\"z\": 1, \"a\": 2}"),
        end_buffer(),
    ]));
    let pulls = Cell::new(0usize);
    let fetch = || {
        pulls.set(pulls.get() + 1);
        upstream.borrow_mut().pop_front().unwrap()
    };
    let answer = next_written(fetch, |iter: &mut InputIterator<_>| {
        match iter.next_payload() {
            Some(Ok(Some(text))) => Ok(StreamOption::Value(Ok::<_, String>(text))),
            Some(Ok(None)) => Ok(StreamOption::Absent),
            Some(Err(error)) => Err(error.to_string()),
            None => Ok(StreamOption::EndOfStream),
        }
    });
    assert_eq!(answer, to_mem(JSON_TYPE_ID, b"{\"z\": 1, \"a\": 2}"));
    assert_eq!(pulls.get(), 1);
}

#[test]
fn next_written_reports_a_value_that_could_not_be_written() {
    let answer = next_written(end_buffer, |_iter: &mut InputIterator<_>| {
        Ok::<_, String>(StreamOption::Value(Err::<Vec<u8>, _>("no text for this value")))
    });
    assert_eq!(answer, error_buffer("no text for this value"));
}

#[test]
fn carry_writes_the_text_under_the_json_id() {
    assert_eq!(carry::<String>(Ok(b"[true]".to_vec())), vec![1u8, 6, 0, 0, 0, b'[', b't', b'r', b'u', b'e', b']']);
}

#[test]
fn fail_writes_what_the_failure_says() {
    assert_eq!(fail(&"no"), vec![255u8, 2, 0, 0, 0, b'n', b'o']);
    assert_eq!(fail(&42), vec![255u8, 2, 0, 0, 0, b'4', b'2']);
}

#[test]
fn next_answers_a_transform_that_pulls_nothing() {
    let pulls = Cell::new(0usize);
    let fetch = || {
        pulls.set(pulls.get() + 1);
        end_buffer()
    };
    let answer = next(fetch, |_iter: &mut InputIterator<_>| {
        Ok::<_, String>(StreamOption::Value(json("\"constant\"")))
    });
    assert_eq!(answer, to_mem(JSON_TYPE_ID, b"\"constant\""));
    assert_eq!(pulls.get(), 0);
}
