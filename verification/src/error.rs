use vstd::prelude::*;

verus! {

/// The failure taxonomy of a sniffing invocation.
///
/// Every failure aborts the whole invocation; partial results are never
/// emitted alongside an error.
#[derive(Debug, Clone)]
pub enum SniffError {
    /// Invalid invocation parameters (a negative sample size), detected
    /// before any filesystem or network access.
    Input,
    /// A filesystem or network failure during acquisition, carrying the
    /// reporting layer's message.
    Io(String),
    /// The inference stage could not converge on the sample.
    Inference(String),
    /// The record count, after header and preamble adjustment, is zero.
    EmptyDataset,
}

impl SniffError {
    /// The short title under which every failure is rendered, in the
    /// structured form as well as the plain one.
    pub fn title(&self) -> (s: String)
        ensures
            s@ == "sniff error"@,
    {
        "sniff error".to_owned()
    }

    /// The detail string of the failure: the carried message where one was
    /// reported, a fixed description otherwise.
    pub fn detail(&self) -> (s: String)
        ensures
            s@ == (match self {
                SniffError::Input => "Sample size must be greater than or equal to zero."@,
                SniffError::Io(d) => d@,
                SniffError::Inference(d) => d@,
                SniffError::EmptyDataset => "Empty file"@,
            }),
    {
        match self {
            SniffError::Input => "Sample size must be greater than or equal to zero.".to_owned(),
            SniffError::Io(d) => d.clone(),
            SniffError::Inference(d) => d.clone(),
            SniffError::EmptyDataset => "Empty file".to_owned(),
        }
    }
}

} // verus!
