use vstd::prelude::*;

verus! {

/// Why one unit of work failed. Detail strings come from the collaborator
/// that failed.
#[derive(Clone, Debug, PartialEq, Eq)]
pub enum AppError {
    /// The inference service could not be reached or refused the request.
    ApiError(String),
    /// The background task that ran the capture did not complete.
    TaskError(String),
    /// No display could be enumerated.
    NoMonitors,
    /// The platform capture backend failed.
    ScreenshotError(String),
    /// The inference service returned no content.
    EmptyResponse,
}

pub open spec fn description_of(e: AppError) -> Seq<char> {
    match e {
        AppError::ApiError(s) => "OpenAI API Error: "@ + s@,
        AppError::TaskError(s) => "Task Error: "@ + s@,
        AppError::NoMonitors => "No monitors found"@,
        AppError::ScreenshotError(s) => s@,
        AppError::EmptyResponse => "Empty response"@,
    }
}

impl AppError {
    /// Human-readable description, for the diagnostic stream.
    pub fn description(&self) -> (r: String)
        ensures
            r@ == description_of(*self),
    {
        match self {
            AppError::ApiError(s) => String::from_str("OpenAI API Error: ").concat(s.as_str()),
            AppError::TaskError(s) => String::from_str("Task Error: ").concat(s.as_str()),
            AppError::NoMonitors => String::from_str("No monitors found"),
            AppError::ScreenshotError(s) => s.clone(),
            AppError::EmptyResponse => String::from_str("Empty response"),
        }
    }
}

} // verus!
