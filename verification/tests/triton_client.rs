use rust_service::inference::{
    InferInputTensor, InferOutputTensor, InferParameter, InferRequestedOutputTensor,
    InferTensorContents, ModelInferRequest, ModelInferResponse, ParameterChoice,
};
use rust_service::channel::dial_failed;
use rust_service::triton_client::{
    decode_payload, select_payload, ConnectionState, InferAction, InferEvent, Payload, TritonClient,
    TritonError,
};
use rust_service::ImageTensor;

fn bits(values: &[f32]) -> Vec<u32> {
    values.iter().map(|value| value.to_bits()).collect()
}

fn le_bytes(values: &[f32]) -> Vec<u8> {
    values.iter().flat_map(|value| value.to_le_bytes()).collect()
}

fn client() -> TritonClient {
    TritonClient::new(
        "http://127.0.0.1:8001".to_string(),
        "test-model".to_string(),
        "input".to_string(),
        "embedding".to_string(),
        false,
        None,
    )
}

fn output(name: &str, typed: Option<&[f32]>) -> InferOutputTensor {
    InferOutputTensor {
        name: name.to_string(),
        datatype: "FP32".to_string(),
        shape: vec![typed.map(|values| values.len() as i64).unwrap_or(0)],
        parameters: Vec::new(),
        contents: typed.map(|values| InferTensorContents { fp32_contents: bits(values) }),
    }
}

fn response(outputs: Vec<InferOutputTensor>, raw: Vec<Vec<u8>>) -> ModelInferResponse {
    ModelInferResponse {
        model_name: "test-model".to_string(),
        model_version: String::new(),
        id: String::new(),
        parameters: Vec::new(),
        outputs,
        raw_output_contents: raw,
    }
}

fn tensor() -> ImageTensor {
    ImageTensor { shape: vec![1, 3, 2, 1], data: bits(&[0.1, 0.2, 0.3, 0.4, 0.5, 0.6]) }
}

fn invalid(text: &str) -> TritonError {
    TritonError::InvalidResponse(text.to_string())
}

#[test]
fn extract_returns_typed_values_unchanged() {
    let reply = response(vec![output("embedding", Some(&[0.25, 0.75]))], Vec::new());
    assert_eq!(client().extract_scores(reply), Ok(bits(&[0.25, 0.75])));
}

#[test]
fn extract_prefers_typed_values_over_a_raw_buffer() {
    let reply = response(
        vec![output("embedding", Some(&[0.25, 0.75]))],
        vec![le_bytes(&[9.0, 8.0, 7.0])],
    );
    assert_eq!(client().extract_scores(reply), Ok(bits(&[0.25, 0.75])));
}

#[test]
fn extract_falls_back_to_the_raw_buffer() {
    let raw = le_bytes(&[0.25, 0.75]);
    assert_eq!(raw.len(), 8);
    assert_eq!(raw, vec![0x00, 0x00, 0x80, 0x3E, 0x00, 0x00, 0x40, 0x3F]);
    let reply = response(vec![output("embedding", None)], vec![raw]);
    assert_eq!(client().extract_scores(reply), Ok(bits(&[0.25, 0.75])));
}

#[test]
fn extract_falls_back_when_the_typed_values_are_empty() {
    let reply = response(vec![output("embedding", Some(&[]))], vec![le_bytes(&[1.5])]);
    assert_eq!(client().extract_scores(reply), Ok(bits(&[1.5])));
}

#[test]
fn extract_uses_only_the_first_raw_buffer() {
    let reply = response(
        vec![output("embedding", None)],
        vec![le_bytes(&[0.5]), le_bytes(&[0.25, 0.75])],
    );
    assert_eq!(client().extract_scores(reply), Ok(bits(&[0.5])));
}

#[test]
fn extract_rejects_a_raw_buffer_of_broken_length() {
    for length in [1usize, 2, 3, 5, 6, 7, 9] {
        let reply = response(vec![output("embedding", None)], vec![vec![0u8; length]]);
        assert_eq!(
            client().extract_scores(reply),
            Err(invalid("output tensor byte length is not a multiple of 4"))
        );
    }
}

#[test]
fn extract_rejects_a_response_without_the_output() {
    let reply = response(vec![output("logits", Some(&[0.25, 0.75]))], vec![le_bytes(&[0.5])]);
    assert_eq!(
        client().extract_scores(reply),
        Err(invalid("missing output tensor 'embedding' in response"))
    );
    let empty = response(Vec::new(), vec![le_bytes(&[0.5])]);
    assert_eq!(
        client().extract_scores(empty),
        Err(invalid("missing output tensor 'embedding' in response"))
    );
}

#[test]
fn extract_rejects_a_response_without_any_number() {
    let nothing = response(vec![output("embedding", None)], Vec::new());
    assert_eq!(client().extract_scores(nothing), Err(invalid("no FP32 data found in Triton response")));
    let empty_typed = response(vec![output("embedding", Some(&[]))], Vec::new());
    assert_eq!(
        client().extract_scores(empty_typed),
        Err(invalid("no FP32 data found in Triton response"))
    );
    let empty_raw = response(vec![output("embedding", None)], vec![Vec::new()]);
    assert_eq!(
        client().extract_scores(empty_raw),
        Err(invalid("no FP32 data found in Triton response"))
    );
}

#[test]
fn extract_takes_the_first_output_of_the_name() {
    let reply = response(
        vec![
            output("other", Some(&[9.0])),
            output("embedding", Some(&[0.125])),
            output("embedding", Some(&[0.875])),
        ],
        Vec::new(),
    );
    assert_eq!(client().extract_scores(reply), Ok(bits(&[0.125])));
    let first_is_empty = response(
        vec![output("embedding", None), output("embedding", Some(&[0.875]))],
        Vec::new(),
    );
    assert_eq!(
        client().extract_scores(first_is_empty),
        Err(invalid("no FP32 data found in Triton response"))
    );
}

#[test]
fn extract_keeps_special_values_bit_for_bit() {
    let patterns: Vec<u32> = vec![0x7FC0_0001, 0xFF80_0000, 0x8000_0000, 0x0000_0001];
    let mut raw = Vec::new();
    for pattern in &patterns {
        raw.extend_from_slice(&pattern.to_le_bytes());
    }
    let reply = response(vec![output("embedding", None)], vec![raw]);
    assert_eq!(client().extract_scores(reply), Ok(patterns));
}

#[test]
fn select_payload_is_the_tagged_choice() {
    let name = "embedding".to_string();
    let typed = response(vec![output("embedding", Some(&[0.5]))], vec![vec![1, 2, 3]]);
    assert_eq!(select_payload(&typed, &name), Ok(Payload::Typed(bits(&[0.5]))));
    let raw = response(vec![output("embedding", None)], vec![vec![1, 2, 3]]);
    assert_eq!(select_payload(&raw, &name), Ok(Payload::Raw(vec![1, 2, 3])));
    let absent = response(vec![output("embedding", None)], Vec::new());
    assert_eq!(select_payload(&absent, &name), Ok(Payload::Absent));
    let missing = response(Vec::new(), Vec::new());
    assert_eq!(
        select_payload(&missing, &name),
        Err(invalid("missing output tensor 'embedding' in response"))
    );
}

#[test]
fn decode_payload_of_each_kind() {
    assert_eq!(decode_payload(Payload::Typed(vec![7, 8])), Ok(vec![7, 8]));
    assert_eq!(
        decode_payload(Payload::Typed(Vec::new())),
        Err(invalid("no FP32 data found in Triton response"))
    );
    assert_eq!(decode_payload(Payload::Raw(vec![1, 0, 0, 0])), Ok(vec![1]));
    assert_eq!(
        decode_payload(Payload::Raw(vec![1, 0, 0])),
        Err(invalid("output tensor byte length is not a multiple of 4"))
    );
    assert_eq!(
        decode_payload(Payload::Raw(Vec::new())),
        Err(invalid("no FP32 data found in Triton response"))
    );
    assert_eq!(decode_payload(Payload::Absent), Err(invalid("no FP32 data found in Triton response")));
}

#[test]
fn input_tensor_carries_name_type_shape_and_values() {
    let input = client().build_input_tensor(&tensor());
    assert_eq!(
        input,
        InferInputTensor {
            name: "input".to_string(),
            datatype: "FP32".to_string(),
            shape: vec![1, 3, 2, 1],
            parameters: Vec::new(),
            contents: Some(InferTensorContents {
                fp32_contents: bits(&[0.1, 0.2, 0.3, 0.4, 0.5, 0.6]),
            }),
        }
    );
}

#[test]
fn requested_output_asks_for_typed_values() {
    let requested = client().build_requested_output();
    assert_eq!(
        requested,
        InferRequestedOutputTensor {
            name: "embedding".to_string(),
            parameters: vec![(
                "binary_data".to_string(),
                InferParameter { parameter_choice: Some(ParameterChoice::BoolParam(false)) },
            )],
        }
    );
}

#[test]
fn request_names_the_model_and_leaves_version_and_id_unset() {
    let request = client().build_request(&tensor());
    assert_eq!(
        request,
        ModelInferRequest {
            model_name: "test-model".to_string(),
            model_version: String::new(),
            id: String::new(),
            parameters: Vec::new(),
            inputs: vec![client().build_input_tensor(&tensor())],
            outputs: vec![client().build_requested_output()],
            raw_input_contents: Vec::new(),
        }
    );
}

#[test]
fn error_messages() {
    assert_eq!(
        TritonError::Transport("timed out".to_string()).message(),
        "failed to contact Triton endpoint: timed out"
    );
    assert_eq!(
        TritonError::InvalidResponse("no data".to_string()).message(),
        "invalid Triton response: no data"
    );
    assert_eq!(
        TritonError::Configuration("bad uri".to_string()).message(),
        "invalid Triton configuration: bad uri"
    );
}

#[test]
fn infer_rejects_an_empty_tensor_before_anything_else() {
    let empty = ImageTensor { shape: vec![0], data: Vec::new() };
    for state in [ConnectionState::Unconnected, ConnectionState::Connecting, ConnectionState::Connected] {
        let (next, action) = client().infer(&empty, state, InferEvent::Call);
        assert_eq!(next, state);
        assert_eq!(action, InferAction::Fail(invalid("tensor data cannot be empty")));
    }
}

#[test]
fn infer_call_depends_on_the_channel() {
    let client = client();
    assert_eq!(
        client.infer(&tensor(), ConnectionState::Unconnected, InferEvent::Call),
        (ConnectionState::Connecting, InferAction::Connect)
    );
    assert_eq!(
        client.infer(&tensor(), ConnectionState::Connecting, InferEvent::Call),
        (ConnectionState::Connecting, InferAction::Wait)
    );
    assert_eq!(
        client.infer(&tensor(), ConnectionState::Connected, InferEvent::Call),
        (ConnectionState::Connected, InferAction::Send(client.build_request(&tensor())))
    );
}

#[test]
fn infer_sends_once_the_channel_is_open() {
    let client = client();
    assert_eq!(
        client.infer(&tensor(), ConnectionState::Connecting, InferEvent::Connected),
        (ConnectionState::Connected, InferAction::Send(client.build_request(&tensor())))
    );
}

#[test]
fn infer_gives_the_channel_up_when_it_could_not_be_opened() {
    let error = TritonError::Transport("connection refused".to_string());
    assert_eq!(
        client().infer(&tensor(), ConnectionState::Connecting, InferEvent::ConnectFailed(error.clone())),
        (ConnectionState::Unconnected, InferAction::Fail(error.clone()))
    );
    assert_eq!(
        client().infer(&tensor(), ConnectionState::Connected, InferEvent::ConnectFailed(error.clone())),
        (ConnectionState::Connected, InferAction::Fail(error.clone()))
    );
    assert_eq!(
        client().infer(&tensor(), ConnectionState::Unconnected, InferEvent::ConnectFailed(error.clone())),
        (ConnectionState::Unconnected, InferAction::Fail(error))
    );
}

#[test]
fn infer_decodes_the_reply() {
    let reply = response(vec![output("embedding", Some(&[0.25, 0.75]))], Vec::new());
    assert_eq!(
        client().infer(&tensor(), ConnectionState::Connected, InferEvent::Reply(reply)),
        (ConnectionState::Connected, InferAction::Done(bits(&[0.25, 0.75])))
    );
    let useless = response(Vec::new(), Vec::new());
    assert_eq!(
        client().infer(&tensor(), ConnectionState::Connected, InferEvent::Reply(useless)),
        (
            ConnectionState::Connected,
            InferAction::Fail(invalid("missing output tensor 'embedding' in response"))
        )
    );
}

#[test]
fn infer_keeps_the_channel_after_a_failure_in_transit() {
    assert_eq!(
        client().infer(
            &tensor(),
            ConnectionState::Connected,
            InferEvent::SendFailed("status: Unavailable".to_string())
        ),
        (
            ConnectionState::Connected,
            InferAction::Fail(TritonError::Transport("status: Unavailable".to_string()))
        )
    );
}

#[test]
fn calls_before_the_channel_is_open_start_one_handshake() {
    let client = client();
    let mut state = ConnectionState::Unconnected;
    let mut handshakes = 0;
    let mut waiting = 0;
    for _ in 0..5 {
        let (next, action) = client.infer(&tensor(), state, InferEvent::Call);
        state = next;
        match action {
            InferAction::Connect => handshakes += 1,
            InferAction::Wait => waiting += 1,
            other => panic!("unexpected action: {:?}", other),
        }
    }
    assert_eq!(handshakes, 1);
    assert_eq!(waiting, 4);
    assert_eq!(state, ConnectionState::Connecting);
    let (state, _) = client.infer(&tensor(), state, InferEvent::Connected);
    assert_eq!(state, ConnectionState::Connected);
    for _ in 0..5 {
        let (next, action) = client.infer(&tensor(), state, InferEvent::Call);
        assert_eq!(next, ConnectionState::Connected);
        assert!(matches!(action, InferAction::Send(_)));
    }
}

#[test]
fn a_failed_handshake_lets_the_next_call_try_again() {
    let client = client();
    let (state, action) = client.infer(&tensor(), ConnectionState::Unconnected, InferEvent::Call);
    assert_eq!(action, InferAction::Connect);
    let error = dial_failed("connection refused".to_string());
    let (state, action) = client.infer(&tensor(), state, InferEvent::ConnectFailed(error.clone()));
    assert_eq!(action, InferAction::Fail(error));
    assert_eq!(state, ConnectionState::Unconnected);
    let (state, action) = client.infer(&tensor(), state, InferEvent::Call);
    assert_eq!(action, InferAction::Connect);
    assert_eq!(state, ConnectionState::Connecting);
}
