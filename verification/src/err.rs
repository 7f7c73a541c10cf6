use bytes::BytesMut;
use vstd::prelude::*;

use crate::buf::bytes_mut_contents;

verus! {

/// Why a value could not be written. Every variant hands the buffer back.
#[derive(Debug)]
pub enum SerError {
    /// A failure described by a message.
    Msg(String, BytesMut),
    /// The buffer is shorter than the value.
    UnexpectedEOB(BytesMut),
    /// The buffer is longer than the value.
    BufferNotFilled(BytesMut),
    /// The write into the buffer itself failed.
    IOError(std::io::Error, BytesMut),
}

impl SerError {
    /// The bytes of the buffer that the error hands back.
    pub open spec fn returned(&self) -> Seq<u8> {
        match self {
            SerError::Msg(_, buf) => bytes_mut_contents(*buf),
            SerError::UnexpectedEOB(buf) => bytes_mut_contents(*buf),
            SerError::BufferNotFilled(buf) => bytes_mut_contents(*buf),
            SerError::IOError(_, buf) => bytes_mut_contents(*buf),
        }
    }

    /// Takes the buffer out of the error, for reuse.
    pub fn into_buffer(self) -> (buf: BytesMut)
        ensures
            bytes_mut_contents(buf) == self.returned(),
    {
        match self {
            SerError::Msg(_, buf) => buf,
            SerError::UnexpectedEOB(buf) => buf,
            SerError::BufferNotFilled(buf) => buf,
            SerError::IOError(_, buf) => buf,
        }
    }
}

/// Why a value could not be read.
#[derive(Debug)]
pub enum DeError {
    /// A failure described by a message: text that is not UTF-8, or a type
    /// that can only be read as a view into the input.
    Msg(String),
    /// The buffer is shorter than the type.
    UnexpectedEOB,
    /// The buffer is longer than the type.
    BufferNotParsed,
    /// A string does not end in a zero byte.
    NullError,
}

impl DeError {
    /// Whether this is the error that carries exactly `text`.
    pub open spec fn has_message(&self, text: Seq<char>) -> bool {
        self matches DeError::Msg(message) && message@ == text
    }

    /// Creates an error that carries `message`.
    pub fn new(message: &str) -> (err: Self)
        ensures
            err.has_message(message@),
    {
        DeError::Msg(message.to_owned())
    }
}

} // verus!
