//! The client of the inference backend.
//!
//! A [`TritonClient`] holds the settings of one backend: where it is, which
//! model to ask, and under which names the model takes its input and gives
//! its output. It builds the inference request for a tensor, decodes the
//! scores out of a response, and decides what an inference call does next
//! at each point of its course. It does no input or output of its own: the
//! caller opens the channel and sends the request, and reports back.

pub use crate::inference;

use crate::binary32::{decode_le_words, le_words};
use crate::channel::{begin, begun, handshake_view, Handshake};
use crate::image::{ImageTensor, ImageTensorView};
use crate::inference::{
    distinct_names, InferInputTensor, InferInputTensorView, InferOutputTensorView, InferParameter,
    InferRequestedOutputTensor, InferRequestedOutputTensorView, InferTensorContents,
    InferTensorContentsView, ModelInferRequest, ModelInferRequestView, ModelInferResponse,
    ModelInferResponseView, ParameterChoice, ParameterChoiceView,
};
use vstd::prelude::*;

verus! {

/// What went wrong in the exchange with the backend.
#[derive(Clone, Debug, PartialEq, Eq)]
pub enum TritonError {
    /// The backend could not be reached, or the call failed in transit.
    Transport(String),
    /// The backend replied, but the reply cannot be used.
    InvalidResponse(String),
    /// The client's own settings do not allow a connection.
    Configuration(String),
}

pub enum TritonErrorView {
    Transport(Seq<char>),
    InvalidResponse(Seq<char>),
    Configuration(Seq<char>),
}

impl View for TritonError {
    type V = TritonErrorView;

    open spec fn view(&self) -> TritonErrorView {
        match *self {
            TritonError::Transport(detail) => TritonErrorView::Transport(detail@),
            TritonError::InvalidResponse(detail) => TritonErrorView::InvalidResponse(detail@),
            TritonError::Configuration(detail) => TritonErrorView::Configuration(detail@),
        }
    }
}

impl TritonErrorView {
    /// The text that describes the error: a fixed sentence for its kind,
    /// then the detail.
    pub open spec fn message(self) -> Seq<char> {
        match self {
            TritonErrorView::Transport(detail) => "failed to contact Triton endpoint: "@ + detail,
            TritonErrorView::InvalidResponse(detail) => "invalid Triton response: "@ + detail,
            TritonErrorView::Configuration(detail) => "invalid Triton configuration: "@ + detail,
        }
    }
}

impl TritonError {
    /// The text that describes the error.
    pub fn message(&self) -> (text: String)
        ensures
            text@ == self@.message(),
    {
        match self {
            TritonError::Transport(detail) => "failed to contact Triton endpoint: ".to_owned().concat(
                detail.as_str(),
            ),
            TritonError::InvalidResponse(detail) => "invalid Triton response: ".to_owned().concat(
                detail.as_str(),
            ),
            TritonError::Configuration(detail) => "invalid Triton configuration: ".to_owned().concat(
                detail.as_str(),
            ),
        }
    }
}

/// The numbers that a response offers for one output: the tagged choice
/// between the two encodings that the backend may use.
#[derive(Clone, Debug, PartialEq, Eq)]
pub enum Payload {
    /// Typed values, at least one.
    Typed(Vec<u32>),
    /// A packed buffer of little-endian binary32 values.
    Raw(Vec<u8>),
    /// Neither.
    Absent,
}

pub enum PayloadView {
    Typed(Seq<u32>),
    Raw(Seq<u8>),
    Absent,
}

impl View for Payload {
    type V = PayloadView;

    open spec fn view(&self) -> PayloadView {
        match *self {
            Payload::Typed(values) => PayloadView::Typed(values@),
            Payload::Raw(bytes) => PayloadView::Raw(bytes@),
            Payload::Absent => PayloadView::Absent,
        }
    }
}

/// The view of a result that holds scores or an error.
pub open spec fn scores_view(r: Result<Vec<u32>, TritonError>) -> Result<Seq<u32>, TritonErrorView> {
    match r {
        Ok(scores) => Ok(scores@),
        Err(e) => Err(e@),
    }
}

/// Output `i` is the first one named `name`.
pub open spec fn is_first_named(outputs: Seq<InferOutputTensorView>, name: Seq<char>, i: int) -> bool {
    &&& 0 <= i < outputs.len()
    &&& outputs[i].name == name
    &&& forall|j: int| 0 <= j < i ==> (#[trigger] outputs[j]).name != name
}

/// Some output is named `name`.
pub open spec fn has_named(outputs: Seq<InferOutputTensorView>, name: Seq<char>) -> bool {
    exists|i: int| 0 <= i < outputs.len() && (#[trigger] outputs[i]).name == name
}

/// The index of the first output named `name`, where there is one.
pub open spec fn first_named(outputs: Seq<InferOutputTensorView>, name: Seq<char>) -> int {
    choose|i: int| is_first_named(outputs, name, i)
}

/// The typed values of an output; none where it carries no typed payload.
pub open spec fn typed_values(output: InferOutputTensorView) -> Seq<u32> {
    match output.contents {
        Some(contents) => contents.fp32_contents,
        None => Seq::empty(),
    }
}

/// The payload of a response whose matching output is `output`: its typed
/// values if there are any, else the first raw buffer of the response, if
/// there is one.
pub open spec fn payload_of(output: InferOutputTensorView, raw: Seq<Seq<u8>>) -> PayloadView {
    if typed_values(output).len() > 0 {
        PayloadView::Typed(typed_values(output))
    } else if raw.len() > 0 {
        PayloadView::Raw(raw[0])
    } else {
        PayloadView::Absent
    }
}

/// The scores that a payload yields. Typed values are taken as they are. A
/// raw buffer must hold whole words and is decoded word by word. A payload
/// without any number is an error.
pub open spec fn decoded(payload: PayloadView) -> Result<Seq<u32>, TritonErrorView> {
    match payload {
        PayloadView::Typed(values) => if values.len() > 0 {
            Ok(values)
        } else {
            Err(TritonErrorView::InvalidResponse("no FP32 data found in Triton response"@))
        },
        PayloadView::Raw(bytes) => if bytes.len() % 4 != 0 {
            Err(
                TritonErrorView::InvalidResponse(
                    "output tensor byte length is not a multiple of 4"@,
                ),
            )
        } else if bytes.len() == 0 {
            Err(TritonErrorView::InvalidResponse("no FP32 data found in Triton response"@))
        } else {
            Ok(le_words(bytes))
        },
        PayloadView::Absent => Err(
            TritonErrorView::InvalidResponse("no FP32 data found in Triton response"@),
        ),
    }
}

/// What a response yields for the output named `name`: an error if no output
/// has that name, else what the payload of the first such output decodes to.
pub open spec fn extracted(response: ModelInferResponseView, name: Seq<char>) -> Result<
    Seq<u32>,
    TritonErrorView,
> {
    if has_named(response.outputs, name) {
        decoded(
            payload_of(response.outputs[first_named(response.outputs, name)], response.raw_output_contents),
        )
    } else {
        Err(
            TritonErrorView::InvalidResponse(
                "missing output tensor '"@ + name + "' in response"@,
            ),
        )
    }
}

/// Typed values win: where the first output of the name carries typed
/// values, they are the scores, whatever the raw buffers hold.
pub proof fn lemma_typed_values_preferred(response: ModelInferResponseView, name: Seq<char>, i: int)
    requires
        is_first_named(response.outputs, name, i),
        typed_values(response.outputs[i]).len() > 0,
    ensures
        extracted(response, name) == Ok::<Seq<u32>, TritonErrorView>(typed_values(response.outputs[i])),
{
    lemma_first_named(response.outputs, name, i);
}

/// Without typed values the first raw buffer is decoded: a buffer of whole
/// words, at least one, gives its words in order.
pub proof fn lemma_raw_buffer_decoded(response: ModelInferResponseView, name: Seq<char>, i: int)
    requires
        is_first_named(response.outputs, name, i),
        typed_values(response.outputs[i]).len() == 0,
        response.raw_output_contents.len() > 0,
        response.raw_output_contents[0].len() > 0,
        response.raw_output_contents[0].len() % 4 == 0,
    ensures
        extracted(response, name) == Ok::<Seq<u32>, TritonErrorView>(
            le_words(response.raw_output_contents[0]),
        ),
        le_words(response.raw_output_contents[0]).len() * 4 == response.raw_output_contents[0].len(),
{
    lemma_first_named(response.outputs, name, i);
}

/// A raw buffer that does not hold whole words is refused.
pub proof fn lemma_broken_raw_buffer_refused(
    response: ModelInferResponseView,
    name: Seq<char>,
    i: int,
)
    requires
        is_first_named(response.outputs, name, i),
        typed_values(response.outputs[i]).len() == 0,
        response.raw_output_contents.len() > 0,
        response.raw_output_contents[0].len() % 4 != 0,
    ensures
        extracted(response, name) == Err::<Seq<u32>, TritonErrorView>(
            TritonErrorView::InvalidResponse("output tensor byte length is not a multiple of 4"@),
        ),
{
    lemma_first_named(response.outputs, name, i);
}

/// A response without an output of the name is refused, whatever else it
/// holds.
pub proof fn lemma_missing_output_refused(response: ModelInferResponseView, name: Seq<char>)
    requires
        forall|i: int| 0 <= i < response.outputs.len() ==> (#[trigger] response.outputs[i]).name != name,
    ensures
        extracted(response, name) matches Err(TritonErrorView::InvalidResponse(_)),
{
}

/// Scores are never empty: a response yields at least one score or an
/// error.
pub proof fn lemma_scores_not_empty(response: ModelInferResponseView, name: Seq<char>)
    ensures
        extracted(response, name) matches Ok(scores) ==> scores.len() > 0,
{
}

/// The first output of a name is the one that `first_named` picks.
pub proof fn lemma_first_named(outputs: Seq<InferOutputTensorView>, name: Seq<char>, i: int)
    requires
        is_first_named(outputs, name, i),
    ensures
        has_named(outputs, name),
        first_named(outputs, name) == i,
{
    let j = first_named(outputs, name);
    assert(is_first_named(outputs, name, j));
    if j < i {
        assert(outputs[j].name != name);
    }
    if i < j {
        assert(outputs[i].name != name);
    }
}

/// Decodes a payload into scores.
pub fn decode_payload(payload: Payload) -> (r: Result<Vec<u32>, TritonError>)
    ensures
        scores_view(r) == decoded(payload@),
{
    match payload {
        Payload::Typed(values) => {
            if values.len() > 0 {
                Ok(values)
            } else {
                Err(TritonError::InvalidResponse("no FP32 data found in Triton response".to_owned()))
            }
        },
        Payload::Raw(bytes) => {
            if bytes.len() % 4 != 0 {
                Err(
                    TritonError::InvalidResponse(
                        "output tensor byte length is not a multiple of 4".to_owned(),
                    ),
                )
            } else if bytes.len() == 0 {
                Err(TritonError::InvalidResponse("no FP32 data found in Triton response".to_owned()))
            } else {
                Ok(decode_le_words(bytes.as_slice()))
            }
        },
        Payload::Absent => Err(
            TritonError::InvalidResponse("no FP32 data found in Triton response".to_owned()),
        ),
    }
}

/// Picks the payload for the output named `name` out of a response. Fails
/// where no output has that name.
pub fn select_payload(response: &ModelInferResponse, name: &String) -> (r: Result<Payload, TritonError>)
    ensures
        has_named(response@.outputs, name@) ==> r is Ok && r->Ok_0@ == payload_of(
            response@.outputs[first_named(response@.outputs, name@)],
            response@.raw_output_contents,
        ),
        !has_named(response@.outputs, name@) ==> r is Err && r->Err_0@
            == TritonErrorView::InvalidResponse("missing output tensor '"@ + name@ + "' in response"@),
{
    let mut index: usize = 0;
    while index < response.outputs.len()
        invariant
            index <= response.outputs@.len(),
            forall|j: int| 0 <= j < index ==> (#[trigger] response@.outputs[j]).name != name@,
        decreases response.outputs@.len() - index,
    {
        let output = &response.outputs[index];
        assert(response@.outputs[index as int] == output@);
        if output.name == *name {
            assert(is_first_named(response@.outputs, name@, index as int));
            assert(has_named(response@.outputs, name@));
            let typed_len = match &output.contents {
                Some(contents) => contents.fp32_contents.len(),
                None => 0,
            };
            if typed_len > 0 {
                let values = match &output.contents {
                    Some(contents) => contents.fp32_contents.clone(),
                    None => Vec::new(),
                };
                return Ok(Payload::Typed(values));
            } else if response.raw_output_contents.len() > 0 {
                let bytes = response.raw_output_contents[0].clone();
                return Ok(Payload::Raw(bytes));
            } else {
                return Ok(Payload::Absent);
            }
        }
        index = index + 1;
    }
    let text = "missing output tensor '".to_owned().concat(name.as_str()).concat("' in response");
    Err(TritonError::InvalidResponse(text))
}

/// The settings of a client.
#[derive(Clone, Debug, PartialEq, Eq)]
pub struct TritonClient {
    endpoint: String,
    model_name: String,
    input_name: String,
    output_name: String,
    use_tls: bool,
    ca_certificate_path: Option<String>,
}

pub struct TritonClientView {
    pub endpoint: Seq<char>,
    pub model_name: Seq<char>,
    pub input_name: Seq<char>,
    pub output_name: Seq<char>,
    pub use_tls: bool,
    pub ca_certificate_path: Option<Seq<char>>,
}

impl View for TritonClient {
    type V = TritonClientView;

    closed spec fn view(&self) -> TritonClientView {
        TritonClientView {
            endpoint: self.endpoint@,
            model_name: self.model_name@,
            input_name: self.input_name@,
            output_name: self.output_name@,
            use_tls: self.use_tls,
            ca_certificate_path: match self.ca_certificate_path {
                Some(path) => Some(path@),
                None => None,
            },
        }
    }
}

impl TritonClientView {
    /// The input tensor of a request for `tensor`: named as configured, of
    /// type `FP32`, with the tensor's shape and its values as typed contents.
    pub open spec fn input_tensor(self, tensor: ImageTensorView) -> InferInputTensorView {
        InferInputTensorView {
            name: self.input_name,
            datatype: "FP32"@,
            shape: tensor.shape,
            parameters: Seq::empty(),
            contents: Some(InferTensorContentsView { fp32_contents: tensor.data }),
        }
    }

    /// The one output that a request asks for: named as configured, with
    /// the parameter that asks for typed rather than packed values.
    pub open spec fn requested_output(self) -> InferRequestedOutputTensorView {
        InferRequestedOutputTensorView {
            name: self.output_name,
            parameters: seq![("binary_data"@, Some(ParameterChoiceView::BoolParam(false)))],
        }
    }

    /// The request for `tensor`: the model by name, with no version and no
    /// identifier, one input and one requested output.
    pub open spec fn request(self, tensor: ImageTensorView) -> ModelInferRequestView {
        ModelInferRequestView {
            model_name: self.model_name,
            model_version: Seq::empty(),
            id: Seq::empty(),
            parameters: Seq::empty(),
            inputs: seq![self.input_tensor(tensor)],
            outputs: seq![self.requested_output()],
            raw_input_contents: Seq::empty(),
        }
    }

    /// In every parameter table of a request no name occurs twice.
    pub proof fn lemma_request_tables(self, tensor: ImageTensorView)
        ensures
            distinct_names(self.request(tensor).parameters),
            distinct_names(self.request(tensor).inputs[0].parameters),
            distinct_names(self.request(tensor).outputs[0].parameters),
    {
    }
}

/// The view of an optional string.
pub open spec fn text_view(text: Option<String>) -> Option<Seq<char>> {
    match text {
        Some(t) => Some(t@),
        None => None,
    }
}

/// Where the shared channel stands.
#[derive(Clone, Copy, PartialEq, Eq, Structural, Debug)]
pub enum ConnectionState {
    /// No channel, and nobody is opening one.
    Unconnected,
    /// One caller is opening the channel.
    Connecting,
    /// The channel is open.
    Connected,
}

/// What has happened in the course of one inference call.
#[derive(Clone, Debug, PartialEq, Eq)]
pub enum InferEvent {
    /// The call begins.
    Call,
    /// The channel that this call was told to open is open.
    Connected,
    /// The channel that this call was told to open could not be opened.
    ConnectFailed(TritonError),
    /// The backend has replied to the request.
    Reply(ModelInferResponse),
    /// The request failed in transit, with this diagnostic.
    SendFailed(String),
}

pub enum InferEventView {
    Call,
    Connected,
    ConnectFailed(TritonErrorView),
    Reply(ModelInferResponseView),
    SendFailed(Seq<char>),
}

impl View for InferEvent {
    type V = InferEventView;

    open spec fn view(&self) -> InferEventView {
        match *self {
            InferEvent::Call => InferEventView::Call,
            InferEvent::Connected => InferEventView::Connected,
            InferEvent::ConnectFailed(error) => InferEventView::ConnectFailed(error@),
            InferEvent::Reply(response) => InferEventView::Reply(response@),
            InferEvent::SendFailed(detail) => InferEventView::SendFailed(detail@),
        }
    }
}

/// What the caller of an inference call does next.
#[derive(Clone, Debug, PartialEq, Eq)]
pub enum InferAction {
    /// Open the channel, beginning with `TritonClient::connect`, then
    /// report `Connected` or `ConnectFailed`.
    Connect,
    /// Another call is opening the channel: wait for it, then begin again.
    Wait,
    /// Send the request on the channel, then report `Reply` or `SendFailed`.
    Send(ModelInferRequest),
    /// The call has ended with these scores.
    Done(Vec<u32>),
    /// The call has ended with this error.
    Fail(TritonError),
}

pub enum InferActionView {
    Connect,
    Wait,
    Send(ModelInferRequestView),
    Done(Seq<u32>),
    Fail(TritonErrorView),
}

impl View for InferAction {
    type V = InferActionView;

    open spec fn view(&self) -> InferActionView {
        match *self {
            InferAction::Connect => InferActionView::Connect,
            InferAction::Wait => InferActionView::Wait,
            InferAction::Send(request) => InferActionView::Send(request@),
            InferAction::Done(scores) => InferActionView::Done(scores@),
            InferAction::Fail(error) => InferActionView::Fail(error@),
        }
    }
}

impl TritonClientView {
    /// One step of an inference call for `tensor`: the state of the shared
    /// channel after `event`, and what the caller does next.
    ///
    /// A call with an empty tensor fails at once. Otherwise the call sends
    /// its request if the channel is open, waits if another call is opening
    /// it, and is told to open it if nobody is. Once the channel is open the
    /// request is sent. A channel that could not be opened leaves the state
    /// as it was before the attempt. A reply is decoded into scores; a
    /// reply that cannot be used, or a failure in transit, ends the call and
    /// leaves the channel as it is.
    pub open spec fn step(
        self,
        tensor: ImageTensorView,
        connection: ConnectionState,
        event: InferEventView,
    ) -> (ConnectionState, InferActionView) {
        match event {
            InferEventView::Call => if tensor.data.len() == 0 {
                (
                    connection,
                    InferActionView::Fail(
                        TritonErrorView::InvalidResponse("tensor data cannot be empty"@),
                    ),
                )
            } else {
                match connection {
                    ConnectionState::Unconnected => (
                        ConnectionState::Connecting,
                        InferActionView::Connect,
                    ),
                    ConnectionState::Connecting => (
                        ConnectionState::Connecting,
                        InferActionView::Wait,
                    ),
                    ConnectionState::Connected => (
                        ConnectionState::Connected,
                        InferActionView::Send(self.request(tensor)),
                    ),
                }
            },
            InferEventView::Connected => (
                ConnectionState::Connected,
                InferActionView::Send(self.request(tensor)),
            ),
            InferEventView::ConnectFailed(error) => (
                if connection == ConnectionState::Connecting {
                    ConnectionState::Unconnected
                } else {
                    connection
                },
                InferActionView::Fail(error),
            ),
            InferEventView::Reply(response) => (
                connection,
                match extracted(response, self.output_name) {
                    Ok(scores) => InferActionView::Done(scores),
                    Err(error) => InferActionView::Fail(error),
                },
            ),
            InferEventView::SendFailed(detail) => (
                connection,
                InferActionView::Fail(TritonErrorView::Transport(detail)),
            ),
        }
    }
}

impl TritonClient {
    /// A client for the model `model_name` at `endpoint`, which sends its
    /// tensor as the input `input_name` and asks for the output
    /// `output_name`. With `use_tls` the channel is secured; the server is
    /// then checked against the certificate at `ca_certificate_path`, if one
    /// is given.
    pub fn new(
        endpoint: String,
        model_name: String,
        input_name: String,
        output_name: String,
        use_tls: bool,
        ca_certificate_path: Option<String>,
    ) -> (client: Self)
        ensures
            client@ == (TritonClientView {
                endpoint: endpoint@,
                model_name: model_name@,
                input_name: input_name@,
                output_name: output_name@,
                use_tls,
                ca_certificate_path: text_view(ca_certificate_path),
            }),
    {
        TritonClient { endpoint, model_name, input_name, output_name, use_tls, ca_certificate_path }
    }

    /// The input tensor of a request for `tensor`.
    pub fn build_input_tensor(&self, tensor: &ImageTensor) -> (input: InferInputTensor)
        ensures
            input@ == self@.input_tensor(tensor@),
    {
        let contents = InferTensorContents { fp32_contents: tensor.data.clone() };
        let input = InferInputTensor {
            name: self.input_name.clone(),
            datatype: "FP32".to_owned(),
            shape: tensor.shape.clone(),
            parameters: Vec::new(),
            contents: Some(contents),
        };
        assert(input@.parameters =~= Seq::empty());
        input
    }

    /// The output that every request asks for.
    pub fn build_requested_output(&self) -> (output: InferRequestedOutputTensor)
        ensures
            output@ == self@.requested_output(),
    {
        let mut parameters: Vec<(String, InferParameter)> = Vec::new();
        parameters.push(
            (
                "binary_data".to_owned(),
                InferParameter { parameter_choice: Some(ParameterChoice::BoolParam(false)) },
            ),
        );
        let output = InferRequestedOutputTensor { name: self.output_name.clone(), parameters };
        assert(output@.parameters =~= self@.requested_output().parameters);
        output
    }

    /// The request for `tensor`.
    pub fn build_request(&self, tensor: &ImageTensor) -> (request: ModelInferRequest)
        ensures
            request@ == self@.request(tensor@),
    {
        let mut inputs: Vec<InferInputTensor> = Vec::with_capacity(1);
        inputs.push(self.build_input_tensor(tensor));
        let mut outputs: Vec<InferRequestedOutputTensor> = Vec::with_capacity(1);
        outputs.push(self.build_requested_output());
        let request = ModelInferRequest {
            model_name: self.model_name.clone(),
            model_version: String::new(),
            id: String::new(),
            parameters: Vec::new(),
            inputs,
            outputs,
            raw_input_contents: Vec::new(),
        };
        assert(request@.parameters =~= Seq::empty());
        assert(request@.inputs =~= self@.request(tensor@).inputs);
        assert(request@.outputs =~= self@.request(tensor@).outputs);
        assert(request@.raw_input_contents =~= Seq::empty());
        request
    }

    /// The scores that `response` holds for the configured output.
    pub fn extract_scores(&self, response: ModelInferResponse) -> (r: Result<Vec<u32>, TritonError>)
        ensures
            scores_view(r) == extracted(response@, self@.output_name),
    {
        match select_payload(&response, &self.output_name) {
            Ok(payload) => decode_payload(payload),
            Err(error) => Err(error),
        }
    }

    /// Begins to open the channel to the configured endpoint: makes the
    /// endpoint with its time limits and, with TLS, secures it or asks for
    /// the CA certificate to be read first. See [`crate::channel::begin`].
    pub fn connect(&self) -> (r: Result<Handshake, TritonError>)
        ensures
            handshake_view(r) == begun(self@.endpoint, self@.use_tls, self@.ca_certificate_path),
    {
        begin(&self.endpoint, self.use_tls, &self.ca_certificate_path)
    }

    /// One step of an inference call for `tensor`. The caller holds the
    /// state of the shared channel, hands in what has happened, performs the
    /// action it is given, and hands in the outcome, until the action is
    /// `Done` or `Fail`.
    pub fn infer(&self, tensor: &ImageTensor, connection: ConnectionState, event: InferEvent) -> (r: (
        ConnectionState,
        InferAction,
    ))
        ensures
            (r.0, r.1@) == self@.step(tensor@, connection, event@),
    {
        match event {
            InferEvent::Call => {
                if tensor.data.len() == 0 {
                    (
                        connection,
                        InferAction::Fail(
                            TritonError::InvalidResponse("tensor data cannot be empty".to_owned()),
                        ),
                    )
                } else {
                    match connection {
                        ConnectionState::Unconnected => (
                            ConnectionState::Connecting,
                            InferAction::Connect,
                        ),
                        ConnectionState::Connecting => (
                            ConnectionState::Connecting,
                            InferAction::Wait,
                        ),
                        ConnectionState::Connected => (
                            ConnectionState::Connected,
                            InferAction::Send(self.build_request(tensor)),
                        ),
                    }
                }
            },
            InferEvent::Connected => (
                ConnectionState::Connected,
                InferAction::Send(self.build_request(tensor)),
            ),
            InferEvent::ConnectFailed(error) => {
                let next = match connection {
                    ConnectionState::Connecting => ConnectionState::Unconnected,
                    other => other,
                };
                (next, InferAction::Fail(error))
            },
            InferEvent::Reply(response) => {
                let action = match self.extract_scores(response) {
                    Ok(scores) => InferAction::Done(scores),
                    Err(error) => InferAction::Fail(error),
                };
                (connection, action)
            },
            InferEvent::SendFailed(detail) => (
                connection,
                InferAction::Fail(TritonError::Transport(detail)),
            ),
        }
    }
}

} // verus!
