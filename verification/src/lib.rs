//! Extraction of base64-encoded JPEG attachments from MIME-multipart
//! web-archive text, with a verified line-scanning state machine and a
//! verified decode/plan step around the base64 codec.
pub mod codec;
pub mod options;
pub mod laws;
pub mod scanner;
