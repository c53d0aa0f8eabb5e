use vstd::prelude::*;
use vstd::utf8::encode_utf8;

verus! {

/// A rendered document, passed on byte for byte as the compiler wrote it.
pub struct CompiledPdf(pub Vec<u8>);

/// Why a request produced no document.
pub enum CompileError {
    /// The compiler could not be started, or exchanging data with it failed.
    IoError(String),
    /// The compiler rejected the template; its diagnostics are the message.
    InvalidTemplate(String),
}

/// The result of one request as plain values: the document, or the kind of
/// failure together with its message.
pub enum Reply {
    Document(Seq<u8>),
    Infrastructure(Seq<char>),
    Template(Seq<char>),
}

pub open spec fn reply_of(r: Result<CompiledPdf, CompileError>) -> Reply {
    match r {
        Ok(pdf) => Reply::Document(pdf.0@),
        Err(CompileError::IoError(m)) => Reply::Infrastructure(m@),
        Err(CompileError::InvalidTemplate(m)) => Reply::Template(m@),
    }
}

/// What `String::from_utf8_lossy` makes of a byte sequence.
pub uninterp spec fn utf8_lossy(bytes: Seq<u8>) -> Seq<char>;

/// Relies on `String::from_utf8_lossy`: the bytes decoded as UTF-8, each
/// invalid sequence replaced by U+FFFD, so that valid UTF-8 comes back as the
/// text it encodes.
#[verifier::external_body]
pub(crate) fn decode_lossy(bytes: &Vec<u8>) -> (r: String)
    ensures
        r@ == utf8_lossy(bytes@),
        forall|text: Seq<char>| #[trigger] encode_utf8(text) == bytes@ ==> r@ == text,
{
    String::from_utf8_lossy(bytes).into_owned()
}

/// The reply for a compiler that ran to completion: its output on a zero exit
/// status, otherwise a template error carrying its decoded diagnostics.
pub open spec fn exit_reply(succeeded: bool, stdout: Seq<u8>, stderr: Seq<u8>) -> Reply {
    if succeeded {
        Reply::Document(stdout)
    } else {
        Reply::Template(utf8_lossy(stderr))
    }
}

/// The HTTP status for a failure: 500 for infrastructure, 400 for a rejected template.
pub open spec fn error_status(e: CompileError) -> u16 {
    match e {
        CompileError::IoError(_) => 500,
        CompileError::InvalidTemplate(_) => 400,
    }
}

pub open spec fn error_message(e: CompileError) -> Seq<char> {
    match e {
        CompileError::IoError(m) => m@,
        CompileError::InvalidTemplate(m) => m@,
    }
}

impl CompileError {
    pub fn status_code(&self) -> (r: u16)
        ensures
            r == error_status(*self),
    {
        match self {
            CompileError::IoError(_) => 500,
            CompileError::InvalidTemplate(_) => 400,
        }
    }

    /// The text for the `error` field of the response body.
    pub fn into_message(self) -> (r: String)
        ensures
            r@ == error_message(self),
    {
        match self {
            CompileError::IoError(m) => m,
            CompileError::InvalidTemplate(m) => m,
        }
    }
}

impl CompiledPdf {
    /// The HTTP status of a response that carries a document.
    pub fn status_code(&self) -> (r: u16)
        ensures
            r == 200,
    {
        200
    }

    pub fn into_bytes(self) -> (r: Vec<u8>)
        ensures
            r@ == self.0@,
    {
        self.0
    }
}

} // verus!
