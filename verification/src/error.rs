use vstd::prelude::*;

verus! {

/// Unified error type for the rendering core.
///
/// `Invariant` reports an internal precondition that a caller violated;
/// `External` wraps a failure of the underlying GPU or windowing layer,
/// carried as its rendered description.
#[derive(Debug, PartialEq, Eq)]
pub enum Error {
    Invariant(&'static str),
    External(String),
}

impl Error {
    /// Wraps the rendered description of an outside failure.
    pub fn ext(description: String) -> (r: Error)
        ensures
            r == Error::External(description),
    {
        Error::External(description)
    }
}

/// Adapters from plain `Result` values into the core's error type.
pub trait ResultExt<T>: Sized {
    /// What `corerr` returns, as a value.
    spec fn corerr_spec(self) -> Result<T, Error>;

    /// What `cortext` returns, as a value.
    spec fn cortext_spec(self, msg: &'static str) -> Result<T, Error>;

    /// Wraps the error, keeping its description.
    fn corerr(self) -> (r: Result<T, Error>)
        ensures
            r == self.corerr_spec(),
    ;

    /// Replaces the error with an invariant-violation message.
    fn cortext(self, msg: &'static str) -> (r: Result<T, Error>)
        ensures
            r == self.cortext_spec(msg),
    ;
}

impl<T> ResultExt<T> for Result<T, String> {
    open spec fn corerr_spec(self) -> Result<T, Error> {
        match self {
            Ok(v) => Ok(v),
            Err(d) => Err(Error::External(d)),
        }
    }

    open spec fn cortext_spec(self, msg: &'static str) -> Result<T, Error> {
        match self {
            Ok(v) => Ok(v),
            Err(_) => Err(Error::Invariant(msg)),
        }
    }

    fn corerr(self) -> (r: Result<T, Error>) {
        match self {
            Ok(v) => Ok(v),
            Err(d) => Err(Error::ext(d)),
        }
    }

    fn cortext(self, msg: &'static str) -> (r: Result<T, Error>) {
        match self {
            Ok(v) => Ok(v),
            Err(_) => Err(Error::Invariant(msg)),
        }
    }
}

} // verus!
