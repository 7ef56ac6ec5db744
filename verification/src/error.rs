use vstd::prelude::*;

verus! {

/// Error value shared by the parsing and gateway layers: a plain message
/// describing what went wrong while handling one webhook delivery.
#[derive(Debug)]
pub struct SteveError {
    error_message: String,
}

impl View for SteveError {
    type V = Seq<char>;

    closed spec fn view(&self) -> Seq<char> {
        self.error_message@
    }
}

impl SteveError {
    /// Builds an error carrying the given message.
    pub fn message(msg: &str) -> (r: SteveError)
        ensures
            r@ == msg@,
    {
        SteveError { error_message: msg.to_owned() }
    }

    /// The stored message.
    pub fn description(&self) -> (r: &str)
        ensures
            r@ == self@,
    {
        self.error_message.as_str()
    }
}

impl From<String> for SteveError {
    fn from(err: String) -> Self {
        SteveError { error_message: err }
    }
}

impl vstd::std_specs::convert::FromSpecImpl<String> for SteveError {
    open spec fn obeys_from_spec() -> bool {
        true
    }

    closed spec fn from_spec(v: String) -> Self {
        SteveError { error_message: v }
    }
}

} // verus!
