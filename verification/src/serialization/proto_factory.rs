//! Builders of wire messages.

pub mod request;
pub mod response;

use vstd::prelude::*;
use crate::proto_rs::{Clip_Format, Clipboard};

verus! {

/// The format that a clipboard payload is sent with.
pub open spec fn format_of(filelist: bool) -> Clip_Format {
    if filelist {
        Clip_Format::FILE
    } else {
        Clip_Format::TEXT
    }
}

/// A clipboard payload: the content, marked as a list of files where it is
/// one and as text otherwise.
pub fn create_clipboard(content: String, filelist: bool) -> (data: Clipboard)
    ensures
        data == (Clipboard { format: format_of(filelist), message: content }),
{
    let mut data = Clipboard::new();
    if filelist {
        data.set_format(Clip_Format::FILE)
    }
    data.set_message(content);
    data
}

} // verus!
