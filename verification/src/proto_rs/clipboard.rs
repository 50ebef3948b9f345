use vstd::prelude::*;

verus! {

/// What a clipboard payload holds.
#[allow(non_camel_case_types)]
#[derive(Clone, Copy, Debug, PartialEq, Eq, Structural, Hash)]
pub enum Clipboard_Format {
    TEXT,
    FILE,
}

/// A clipboard payload as it travels in either direction.
#[derive(Debug, PartialEq, Eq)]
pub struct Clipboard {
    pub format: Clipboard_Format,
    pub message: String,
}

/// A clipboard payload as a plain value.
pub struct ClipboardView {
    pub format: Clipboard_Format,
    pub message: Seq<char>,
}

impl View for Clipboard {
    type V = ClipboardView;

    open spec fn view(&self) -> ClipboardView {
        ClipboardView { format: self.format, message: self.message@ }
    }
}

impl Clipboard {
    /// An empty text payload.
    pub fn new() -> (c: Clipboard)
        ensures
            c.format == Clipboard_Format::TEXT,
            c.message@ == Seq::<char>::empty(),
    {
        Clipboard { format: Clipboard_Format::TEXT, message: String::new() }
    }

    pub fn set_format(&mut self, format: Clipboard_Format)
        ensures
            *final(self) == (Clipboard { format, ..*old(self) }),
    {
        self.format = format;
    }

    pub fn set_message(&mut self, message: String)
        ensures
            *final(self) == (Clipboard { message, ..*old(self) }),
    {
        self.message = message;
    }
}

impl Clone for Clipboard {
    fn clone(&self) -> (c: Clipboard)
        ensures
            c == *self,
    {
        Clipboard { format: self.format, message: self.message.clone() }
    }
}

} // verus!
