//! The verification service: what it accepts, and what it answers.
//!
//! A request carries an image and the identifier of a user. The service
//! turns the image into a tensor, has the backend score it, and answers
//! with the first score and whether it reaches the threshold.

use crate::binary32::{
    at_least_half, in_unit_interval, is_at_least_half, lemma_at_least_half, HALF, ZERO,
};
use crate::image::{is_tensor_of, preprocess, refusal, ImageError, ImageTensor, TENSOR_VALUES};
use crate::triton_client::{TritonError, TritonErrorView};
use vstd::prelude::*;
use vstd::string::StringExecFns;

verus! {

/// A request to verify an image for a user.
#[derive(Clone, Debug, PartialEq, Eq)]
pub struct VerifyRequest {
    pub image_data: Vec<u8>,
    pub user_id: String,
}

/// The answer to a request: whether the score reaches the threshold, the
/// score as a binary32 bit pattern, and a sentence that says which.
#[derive(Clone, Debug, PartialEq, Eq)]
pub struct VerifyResponse {
    pub success: bool,
    pub score: u32,
    pub message: String,
}

/// Why a request was not answered.
#[derive(Clone, Debug, PartialEq, Eq)]
pub enum VerifyFailure {
    /// The request itself is at fault.
    InvalidArgument(String),
    /// The service could not do its work.
    Internal(String),
}

pub enum VerifyFailureView {
    InvalidArgument(Seq<char>),
    Internal(Seq<char>),
}

impl View for VerifyFailure {
    type V = VerifyFailureView;

    open spec fn view(&self) -> VerifyFailureView {
        match *self {
            VerifyFailure::InvalidArgument(text) => VerifyFailureView::InvalidArgument(text@),
            VerifyFailure::Internal(text) => VerifyFailureView::Internal(text@),
        }
    }
}

/// What is wrong with a request, if anything: it must carry image data, and
/// it must name a user. The image is looked at first.
pub open spec fn request_fault(image_data: Seq<u8>, user_id: Seq<char>) -> Option<VerifyFailureView> {
    if image_data.len() == 0 {
        Some(VerifyFailureView::InvalidArgument("image data cannot be empty"@))
    } else if user_id.len() == 0 {
        Some(VerifyFailureView::InvalidArgument("user_id is required"@))
    } else {
        None
    }
}

/// The score that decides: the first one, or zero where there is none.
pub open spec fn deciding_score(scores: Seq<u32>) -> u32 {
    if scores.len() > 0 {
        scores[0]
    } else {
        ZERO
    }
}

/// The sentence of an answer.
pub open spec fn verdict(success: bool) -> Seq<char> {
    if success {
        "Verification succeeded"@
    } else {
        "Verification failed"@
    }
}

/// The failure that an image error amounts to.
pub open spec fn preprocessing_failure(diagnostic: Seq<char>) -> VerifyFailureView {
    VerifyFailureView::Internal(
        "image preprocessing failed: "@ + ("image decoding failed: "@ + diagnostic),
    )
}

/// The failure that an error of the inference call amounts to.
pub open spec fn inference_failure(error: TritonErrorView) -> VerifyFailureView {
    VerifyFailureView::Internal("triton inference failed: "@ + error.message())
}

/// The threshold is one half, and it counts as reached: a score of exactly
/// one half succeeds, the next smaller value fails.
pub proof fn lemma_threshold()
    ensures
        at_least_half(HALF),
        !at_least_half((HALF - 1) as u32),
{
    lemma_at_least_half(HALF);
    lemma_at_least_half((HALF - 1) as u32);
}

/// Without a score the answer is a failure with score zero.
pub proof fn lemma_no_score_fails()
    ensures
        deciding_score(Seq::empty()) == ZERO,
        !at_least_half(deciding_score(Seq::empty())),
{
    lemma_at_least_half(ZERO);
}

/// Checks a request before any work is done for it.
pub fn check_request(request: &VerifyRequest) -> (r: Result<(), VerifyFailure>)
    ensures
        match r {
            Ok(_) => request_fault(request.image_data@, request.user_id@) is None,
            Err(failure) => request_fault(request.image_data@, request.user_id@) == Some(failure@),
        },
{
    if request.image_data.len() == 0 {
        return Err(VerifyFailure::InvalidArgument("image data cannot be empty".to_owned()));
    }
    if request.user_id.as_str().is_empty() {
        return Err(VerifyFailure::InvalidArgument("user_id is required".to_owned()));
    }
    Ok(())
}

/// Decides on the scores of the backend: the answer carries the first
/// score, zero where there is none, and succeeds where that score is at
/// least one half.
pub fn decide(scores: &Vec<u32>) -> (response: VerifyResponse)
    ensures
        response.score == deciding_score(scores@),
        response.success == at_least_half(deciding_score(scores@)),
        response.message@ == verdict(response.success),
{
    let score = if scores.len() > 0 {
        scores[0]
    } else {
        ZERO
    };
    let success = is_at_least_half(score);
    let message = if success {
        "Verification succeeded".to_owned()
    } else {
        "Verification failed".to_owned()
    };
    VerifyResponse { success, score, message }
}

/// The failure to report when the image could not be turned into a tensor.
pub fn preprocessing_failed(error: &ImageError) -> (failure: VerifyFailure)
    ensures
        failure@ == preprocessing_failure(error@),
{
    let text = "image preprocessing failed: ".to_owned().concat(error.message().as_str());
    VerifyFailure::Internal(text)
}

/// The failure to report when the inference call has failed.
pub fn inference_failed(error: &TritonError) -> (failure: VerifyFailure)
    ensures
        failure@ == inference_failure(error@),
{
    let text = "triton inference failed: ".to_owned().concat(error.message().as_str());
    VerifyFailure::Internal(text)
}

/// The first half of serving a request: checks it and turns its image into
/// the tensor to send to the backend. A request at fault is refused as
/// such; an image that gives no tensor is an internal failure that carries
/// the words of the refusal.
pub fn prepare(request: &VerifyRequest) -> (r: Result<ImageTensor, VerifyFailure>)
    ensures
        match request_fault(request.image_data@, request.user_id@) {
            Some(fault) => r matches Err(failure) && failure@ == fault,
            None => match r {
                Ok(tensor) => {
                    &&& refusal(request.image_data@) is None
                    &&& is_tensor_of(request.image_data@, tensor@)
                    &&& tensor@.data.len() == TENSOR_VALUES
                    &&& tensor@.well_formed()
                    &&& forall|i: int|
                        0 <= i < tensor@.data.len() ==> in_unit_interval(
                            #[trigger] tensor@.data[i],
                        )
                },
                Err(failure) => refusal(request.image_data@) matches Some(words) && failure@
                    == preprocessing_failure(words),
            },
        },
{
    match check_request(request) {
        Err(failure) => {
            return Err(failure);
        },
        Ok(_) => {},
    }
    match preprocess(request.image_data.as_slice()) {
        Ok(tensor) => Ok(tensor),
        Err(error) => Err(preprocessing_failed(&error)),
    }
}

/// The second half of serving a request: the answer for what the inference
/// call gave. Scores are decided on; an error of the call is an internal
/// failure that carries the error's text.
pub fn conclude(outcome: Result<Vec<u32>, TritonError>) -> (r: Result<VerifyResponse, VerifyFailure>)
    ensures
        match outcome {
            Ok(scores) => r matches Ok(response) && response.score == deciding_score(scores@)
                && response.success == at_least_half(deciding_score(scores@)) && response.message@
                == verdict(response.success),
            Err(error) => r matches Err(failure) && failure@ == inference_failure(error@),
        },
{
    match outcome {
        Ok(scores) => Ok(decide(&scores)),
        Err(error) => Err(inference_failed(&error)),
    }
}

} // verus!
