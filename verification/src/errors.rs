//! The application error.
use vstd::prelude::*;
use vstd::std_specs::cmp::PartialEqSpecImpl;
use vstd::string::StringExecFns;

verus! {

/// Text that opens every rendered start-up failure.
pub const START_FAILURE_PREFIX: &'static str = "Failed to start server: ";

/// The one error an application reports.
///
/// Building the virtual host, registering the handler path and running the
/// server all fail with `ServerStart`, which carries the text of the
/// underlying failure.
#[derive(Debug)]
pub enum SophiaError {
    ServerStart(String),
}

/// The name under which the facade knows the error.
pub type SofieError = SophiaError;

impl SophiaError {
    /// The text of the underlying failure.
    pub open spec fn detail(self) -> Seq<char> {
        match self {
            SophiaError::ServerStart(message) => message@,
        }
    }

    /// The error as it is shown to a reader.
    pub open spec fn rendered(self) -> Seq<char> {
        START_FAILURE_PREFIX@ + self.detail()
    }

    /// A start-up failure with the given underlying text.
    pub fn server_start(detail: &str) -> (error: SophiaError)
        ensures
            error.detail() == detail@,
    {
        SophiaError::ServerStart(String::from_str(detail))
    }

    /// The underlying text, without the prefix.
    pub fn message(&self) -> (text: &str)
        ensures
            text@ == self.detail(),
    {
        match self {
            SophiaError::ServerStart(message) => message.as_str(),
        }
    }

    /// Renders the error: the prefix, then the underlying text unchanged.
    pub fn to_string(&self) -> (text: String)
        ensures
            text@ == self.rendered(),
    {
        String::from_str(START_FAILURE_PREFIX).concat(self.message())
    }

    /// The error this one was caused by: it wraps text, never another error.
    pub fn source(&self) -> (cause: Option<&SophiaError>)
        ensures
            cause is None,
    {
        None
    }
}

impl Clone for SophiaError {
    fn clone(&self) -> (copy: SophiaError)
        ensures
            copy.detail() == self.detail(),
    {
        SophiaError::server_start(self.message())
    }
}

impl PartialEq for SophiaError {
    fn eq(&self, other: &SophiaError) -> (equal: bool) {
        match self {
            SophiaError::ServerStart(left) => match other {
                SophiaError::ServerStart(right) => *left == *right,
            },
        }
    }
}

impl PartialEqSpecImpl for SophiaError {
    open spec fn obeys_eq_spec() -> bool {
        true
    }

    open spec fn eq_spec(&self, other: &SophiaError) -> bool {
        self.detail() == other.detail()
    }
}

/// Whatever the underlying text, the empty one included, the rendered error
/// is "Failed to start server: " followed by that text and nothing else.
pub proof fn lemma_rendering_keeps_detail(error: SophiaError)
    ensures
        error.rendered() == "Failed to start server: "@ + error.detail(),
        error.rendered().len() == 24 + error.detail().len(),
        error.rendered().subrange(0, 24) == "Failed to start server: "@,
        error.rendered().subrange(24, error.rendered().len() as int) == error.detail(),
        error.detail().len() == 0 ==> error.rendered() == "Failed to start server: "@,
{
    reveal_strlit("Failed to start server: ");
    let prefix = "Failed to start server: "@;
    assert(prefix.len() == 24);
    assert(error.rendered().subrange(0, 24) =~= prefix);
    assert(error.rendered().subrange(24, error.rendered().len() as int) =~= error.detail());
    assert(error.detail().len() == 0 ==> error.rendered() =~= prefix);
}

/// Two errors read the same exactly when their underlying texts are the same.
pub proof fn lemma_rendering_tells_errors_apart(first: SophiaError, second: SophiaError)
    ensures
        first.rendered() == second.rendered() <==> first.detail() == second.detail(),
{
    lemma_rendering_keeps_detail(first);
    lemma_rendering_keeps_detail(second);
}

} // verus!
