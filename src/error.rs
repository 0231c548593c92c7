use vstd::prelude::*;

verus! {

/// `std::io::Error`, carried unchanged inside [`DecompileError::Io`].
#[verifier::external_type_specification]
#[verifier::external_body]
pub struct ExIoError(std::io::Error);

/// Every way a request for decompilation can fail.
#[derive(Debug)]
pub enum DecompileError {
    /// The input was refused before the decompiler was asked (it was empty).
    InvalidBytecode(String),
    /// The decompiler reported a failure; the payload is its own message.
    DecompilationFailed(String),
    /// The decompiler broke its side of the interface: a handle or a string
    /// that it owes came back null.
    InternalError(String),
    /// A null with nothing more to say about it.
    NullPointer,
    /// Reading a bytecode file failed.
    Io(std::io::Error),
}

/// The mathematical value of a [`DecompileError`]: its kind, with the text of
/// its detail as a sequence of characters.
pub enum Failure {
    InvalidBytecode(Seq<char>),
    DecompilationFailed(Seq<char>),
    InternalError(Seq<char>),
    NullPointer,
    Io(std::io::Error),
}

impl View for DecompileError {
    type V = Failure;

    open spec fn view(&self) -> Failure {
        match self {
            DecompileError::InvalidBytecode(s) => Failure::InvalidBytecode(s@),
            DecompileError::DecompilationFailed(s) => Failure::DecompilationFailed(s@),
            DecompileError::InternalError(s) => Failure::InternalError(s@),
            DecompileError::NullPointer => Failure::NullPointer,
            DecompileError::Io(e) => Failure::Io(*e),
        }
    }
}

/// The value of the outcome of a request: the source text, or the failure.
pub open spec fn outcome_view(r: Result<String, DecompileError>) -> Result<Seq<char>, Failure> {
    match r {
        Ok(s) => Ok(s@),
        Err(e) => Err(e@),
    }
}

} // verus!
