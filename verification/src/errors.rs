use vstd::prelude::*;
use vstd::string::StringExecFns;

verus! {

/// What can go wrong outside the application's own logic.
#[derive(Clone, Debug, PartialEq, Eq)]
pub enum ClaimitError {
    /// The chain client failed; the text is its message.
    SubxtError(String),
    /// The light client could not be started; the text is its message.
    LightClientError(String),
    /// Anything else, among it every failure of a claim.
    Other(String),
}

impl ClaimitError {
    /// The error as it is shown: what kind it is, then its message.
    pub open spec fn spec_text(self) -> Seq<char> {
        match self {
            ClaimitError::SubxtError(message) => "Subxt error: "@ + message@,
            ClaimitError::LightClientError(message) => "LightClient error: "@ + message@,
            ClaimitError::Other(message) => "Other error: "@ + message@,
        }
    }

    pub fn to_string(&self) -> (r: String)
        ensures
            r@ == self.spec_text(),
    {
        match self {
            ClaimitError::SubxtError(message) => {
                let mut out = String::from_str("Subxt error: ");
                out.append(message.as_str());
                out
            },
            ClaimitError::LightClientError(message) => {
                let mut out = String::from_str("LightClient error: ");
                out.append(message.as_str());
                out
            },
            ClaimitError::Other(message) => {
                let mut out = String::from_str("Other error: ");
                out.append(message.as_str());
                out
            },
        }
    }

    /// An error of the open kind with the given message.
    pub fn other(message: &str) -> (r: Self)
        ensures
            r matches ClaimitError::Other(text) && text@ == message@,
    {
        ClaimitError::Other(String::from_str(message))
    }
}

} // verus!
