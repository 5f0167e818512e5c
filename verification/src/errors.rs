use vstd::prelude::*;

verus! {

/// Error raised while preparing or processing an image.
#[derive(Debug)]
pub struct ImageProcessingError {
    pub message: String,
}

impl ImageProcessingError {
    /// Builds the error from its message.
    pub fn new(message: &str) -> (r: Self)
        ensures
            r.message@ == message@,
    {
        ImageProcessingError { message: message.to_owned() }
    }
}

/// Errors of the library.
#[derive(Debug)]
pub enum AutoGuiError {
    /// The operating system or display server could not serve the request.
    OSFailure(String),
    /// An image could not be built or processed.
    ImageError(ImageProcessingError),
}

/// Whether an error is an operating-system failure carrying `message`.
pub open spec fn is_os_failure(e: AutoGuiError, message: Seq<char>) -> bool {
    e matches AutoGuiError::OSFailure(m) && m@ == message
}

/// Whether an error is an image-processing error carrying `message`.
pub open spec fn is_image_error(e: AutoGuiError, message: Seq<char>) -> bool {
    e matches AutoGuiError::ImageError(ie) && ie.message@ == message
}

impl From<ImageProcessingError> for AutoGuiError {
    fn from(e: ImageProcessingError) -> (r: AutoGuiError) {
        AutoGuiError::ImageError(e)
    }
}

impl vstd::std_specs::convert::FromSpecImpl<ImageProcessingError> for AutoGuiError {
    open spec fn obeys_from_spec() -> bool {
        true
    }

    open spec fn from_spec(e: ImageProcessingError) -> AutoGuiError {
        AutoGuiError::ImageError(e)
    }
}

/// Builds an image-processing error as an `AutoGuiError`.
pub fn image_processing_error(message: &str) -> (r: AutoGuiError)
    ensures
        is_image_error(r, message@),
{
    AutoGuiError::from(ImageProcessingError::new(message))
}

/// Builds an operating-system failure from its message.
pub fn os_failure(message: &str) -> (r: AutoGuiError)
    ensures
        is_os_failure(r, message@),
{
    AutoGuiError::OSFailure(message.to_owned())
}

} // verus!
