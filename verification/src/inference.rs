//! The messages of the backend's inference call, as plain data.
//!
//! Each type holds what the client writes into a request or reads from a
//! response. Numbers of the backend's `FP32` type are binary32 bit patterns
//! (see [`crate::binary32`]). A parameter table is a list of name and value
//! pairs in which no name occurs twice.

use vstd::prelude::*;

verus! {

/// The value of one parameter.
#[derive(Clone, Debug, PartialEq, Eq)]
pub enum ParameterChoice {
    BoolParam(bool),
    Int64Param(i64),
    StringParam(String),
    /// A binary64 value, as its bit pattern.
    DoubleParam(u64),
    Uint64Param(u64),
}

pub enum ParameterChoiceView {
    BoolParam(bool),
    Int64Param(i64),
    StringParam(Seq<char>),
    DoubleParam(u64),
    Uint64Param(u64),
}

impl View for ParameterChoice {
    type V = ParameterChoiceView;

    open spec fn view(&self) -> ParameterChoiceView {
        match *self {
            ParameterChoice::BoolParam(b) => ParameterChoiceView::BoolParam(b),
            ParameterChoice::Int64Param(i) => ParameterChoiceView::Int64Param(i),
            ParameterChoice::StringParam(s) => ParameterChoiceView::StringParam(s@),
            ParameterChoice::DoubleParam(d) => ParameterChoiceView::DoubleParam(d),
            ParameterChoice::Uint64Param(u) => ParameterChoiceView::Uint64Param(u),
        }
    }
}

/// A parameter of a request, a tensor or a response; it may be left unset.
#[derive(Clone, Debug, PartialEq, Eq)]
pub struct InferParameter {
    pub parameter_choice: Option<ParameterChoice>,
}

impl View for InferParameter {
    type V = Option<ParameterChoiceView>;

    open spec fn view(&self) -> Option<ParameterChoiceView> {
        match self.parameter_choice {
            Some(choice) => Some(choice@),
            None => None,
        }
    }
}

/// A parameter table, seen as a sequence of names and values.
pub type ParametersView = Seq<(Seq<char>, Option<ParameterChoiceView>)>;

/// The view of a parameter table.
pub open spec fn parameters_view(parameters: Seq<(String, InferParameter)>) -> ParametersView {
    parameters.map_values(|entry: (String, InferParameter)| (entry.0@, entry.1@))
}

/// No name occurs twice in the table.
pub open spec fn distinct_names(parameters: ParametersView) -> bool {
    forall|i: int, j: int|
        0 <= i < j < parameters.len() ==> (#[trigger] parameters[i]).0 != (
        #[trigger] parameters[j]).0
}

/// The typed payload of a tensor. Only the `FP32` values are held: the
/// client neither writes nor reads another type.
#[derive(Clone, Debug, PartialEq, Eq)]
pub struct InferTensorContents {
    pub fp32_contents: Vec<u32>,
}

pub struct InferTensorContentsView {
    pub fp32_contents: Seq<u32>,
}

impl View for InferTensorContents {
    type V = InferTensorContentsView;

    open spec fn view(&self) -> InferTensorContentsView {
        InferTensorContentsView { fp32_contents: self.fp32_contents@ }
    }
}

/// The view of an optional typed payload.
pub open spec fn contents_view(contents: Option<InferTensorContents>) -> Option<
    InferTensorContentsView,
> {
    match contents {
        Some(c) => Some(c@),
        None => None,
    }
}

/// An input tensor of a request.
#[derive(Clone, Debug, PartialEq, Eq)]
pub struct InferInputTensor {
    pub name: String,
    pub datatype: String,
    pub shape: Vec<i64>,
    pub parameters: Vec<(String, InferParameter)>,
    pub contents: Option<InferTensorContents>,
}

pub struct InferInputTensorView {
    pub name: Seq<char>,
    pub datatype: Seq<char>,
    pub shape: Seq<i64>,
    pub parameters: ParametersView,
    pub contents: Option<InferTensorContentsView>,
}

impl View for InferInputTensor {
    type V = InferInputTensorView;

    open spec fn view(&self) -> InferInputTensorView {
        InferInputTensorView {
            name: self.name@,
            datatype: self.datatype@,
            shape: self.shape@,
            parameters: parameters_view(self.parameters@),
            contents: contents_view(self.contents),
        }
    }
}

/// An output that a request asks for.
#[derive(Clone, Debug, PartialEq, Eq)]
pub struct InferRequestedOutputTensor {
    pub name: String,
    pub parameters: Vec<(String, InferParameter)>,
}

pub struct InferRequestedOutputTensorView {
    pub name: Seq<char>,
    pub parameters: ParametersView,
}

impl View for InferRequestedOutputTensor {
    type V = InferRequestedOutputTensorView;

    open spec fn view(&self) -> InferRequestedOutputTensorView {
        InferRequestedOutputTensorView {
            name: self.name@,
            parameters: parameters_view(self.parameters@),
        }
    }
}

/// An inference request.
#[derive(Clone, Debug, PartialEq, Eq)]
pub struct ModelInferRequest {
    pub model_name: String,
    pub model_version: String,
    pub id: String,
    pub parameters: Vec<(String, InferParameter)>,
    pub inputs: Vec<InferInputTensor>,
    pub outputs: Vec<InferRequestedOutputTensor>,
    pub raw_input_contents: Vec<Vec<u8>>,
}

pub struct ModelInferRequestView {
    pub model_name: Seq<char>,
    pub model_version: Seq<char>,
    pub id: Seq<char>,
    pub parameters: ParametersView,
    pub inputs: Seq<InferInputTensorView>,
    pub outputs: Seq<InferRequestedOutputTensorView>,
    pub raw_input_contents: Seq<Seq<u8>>,
}

impl View for ModelInferRequest {
    type V = ModelInferRequestView;

    open spec fn view(&self) -> ModelInferRequestView {
        ModelInferRequestView {
            model_name: self.model_name@,
            model_version: self.model_version@,
            id: self.id@,
            parameters: parameters_view(self.parameters@),
            inputs: self.inputs@.map_values(|t: InferInputTensor| t@),
            outputs: self.outputs@.map_values(|t: InferRequestedOutputTensor| t@),
            raw_input_contents: self.raw_input_contents@.map_values(|b: Vec<u8>| b@),
        }
    }
}

/// An output tensor of a response.
#[derive(Clone, Debug, PartialEq, Eq)]
pub struct InferOutputTensor {
    pub name: String,
    pub datatype: String,
    pub shape: Vec<i64>,
    pub parameters: Vec<(String, InferParameter)>,
    pub contents: Option<InferTensorContents>,
}

pub struct InferOutputTensorView {
    pub name: Seq<char>,
    pub datatype: Seq<char>,
    pub shape: Seq<i64>,
    pub parameters: ParametersView,
    pub contents: Option<InferTensorContentsView>,
}

impl View for InferOutputTensor {
    type V = InferOutputTensorView;

    open spec fn view(&self) -> InferOutputTensorView {
        InferOutputTensorView {
            name: self.name@,
            datatype: self.datatype@,
            shape: self.shape@,
            parameters: parameters_view(self.parameters@),
            contents: contents_view(self.contents),
        }
    }
}

/// An inference response.
#[derive(Clone, Debug, PartialEq, Eq)]
pub struct ModelInferResponse {
    pub model_name: String,
    pub model_version: String,
    pub id: String,
    pub parameters: Vec<(String, InferParameter)>,
    pub outputs: Vec<InferOutputTensor>,
    pub raw_output_contents: Vec<Vec<u8>>,
}

pub struct ModelInferResponseView {
    pub model_name: Seq<char>,
    pub model_version: Seq<char>,
    pub id: Seq<char>,
    pub parameters: ParametersView,
    pub outputs: Seq<InferOutputTensorView>,
    pub raw_output_contents: Seq<Seq<u8>>,
}

impl View for ModelInferResponse {
    type V = ModelInferResponseView;

    open spec fn view(&self) -> ModelInferResponseView {
        ModelInferResponseView {
            model_name: self.model_name@,
            model_version: self.model_version@,
            id: self.id@,
            parameters: parameters_view(self.parameters@),
            outputs: self.outputs@.map_values(|t: InferOutputTensor| t@),
            raw_output_contents: self.raw_output_contents@.map_values(|b: Vec<u8>| b@),
        }
    }
}

} // verus!
