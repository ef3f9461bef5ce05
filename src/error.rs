//! Errors of obtaining the detection model.
use vstd::prelude::*;

verus! {

/// `std::io::Error`, carried through opaque.
#[verifier::external_type_specification]
#[verifier::external_body]
pub struct ExIoError(std::io::Error);

/// Why the detection model could not be made available.
pub enum ModelError {
    /// Creating the model directory or writing a file in it failed.
    IoError(std::io::Error),
    /// Running the download, or the download itself, failed.
    DownloadError(String),
    /// The model file was not where the download should have put it.
    InvalidPath(String),
}

/// Relies on `std::io::Error`'s `Display`: its message as text.
#[verifier::external_body]
fn io_error_text(e: &std::io::Error) -> (r: String) {
    e.to_string()
}

impl ModelError {
    /// The error's message: a label for its kind followed by its detail.
    pub fn message(&self) -> (r: String)
        ensures
            match self {
                ModelError::IoError(_) => r@.len() >= 11 && r@.subrange(0, 11) == "I/O error: "@,
                ModelError::DownloadError(s) => r@ == "Download error: "@ + s@,
                ModelError::InvalidPath(s) => r@ == "Invalid model path: "@ + s@,
            },
    {
        match self {
            ModelError::IoError(e) => {
                let mut r = String::from_str("I/O error: ");
                proof {
                    reveal_strlit("I/O error: ");
                }
                let detail = io_error_text(e);
                r.append(detail.as_str());
                r
            },
            ModelError::DownloadError(s) => {
                let mut r = String::from_str("Download error: ");
                r.append(s.as_str());
                r
            },
            ModelError::InvalidPath(s) => {
                let mut r = String::from_str("Invalid model path: ");
                r.append(s.as_str());
                r
            },
        }
    }
}

impl From<std::io::Error> for ModelError {
    fn from(e: std::io::Error) -> (r: ModelError)
        ensures
            r == ModelError::IoError(e),
    {
        ModelError::IoError(e)
    }
}

impl vstd::std_specs::convert::FromSpecImpl<std::io::Error> for ModelError {
    open spec fn obeys_from_spec() -> bool {
        true
    }

    open spec fn from_spec(e: std::io::Error) -> ModelError {
        ModelError::IoError(e)
    }
}

} // verus!
