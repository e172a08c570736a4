//! Text and bytes of the fallible print forms.
//!
//! Standard output itself is written by the caller; this library states what
//! is handed to it: the template of the print-line form, and the exact bytes a
//! print of an already expanded text puts on the stream.
pub mod output;
