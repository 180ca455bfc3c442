//! What can be configured of the input pump.
use vstd::prelude::*;

verus! {

/// The number of bytes asked of a reader at a time, unless set otherwise.
pub const DEFAULT_READER_BUF_SIZE: usize = 4096;

/// The pump's configuration.
#[derive(Debug, Clone, Copy)]
pub struct Settings {
    /// How many bytes the pump asks of a reader at a time.
    pub reader_buf_size: usize,
}

impl Default for Settings {
    fn default() -> (settings: Self)
        ensures
            settings.reader_buf_size == DEFAULT_READER_BUF_SIZE,
    {
        Settings::new()
    }
}

impl Settings {
    /// The default configuration.
    pub fn new() -> (settings: Self)
        ensures
            settings.reader_buf_size == DEFAULT_READER_BUF_SIZE,
    {
        Settings { reader_buf_size: DEFAULT_READER_BUF_SIZE }
    }
}

} // verus!
