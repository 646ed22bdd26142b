//! A small line-oriented RPC protocol: requests are JSON values naming one of a
//! fixed set of methods, and each gets one JSON response line whose result is a
//! string with a type tag, or an error with a code.
//!
//! The decoding of requests, the registry, the methods' parameter checks and
//! computations, dispatch, and the encoding of responses are verified here.
//! Parsing text into JSON values, the floating-point arithmetic of `floor` and
//! `nroot`, and the socket loop belong to the program around the library.

pub mod json;
pub mod text;
pub mod methods;
pub mod order;
pub mod protocol;
pub mod response;
pub mod laws;
pub mod handler;
