use vstd::prelude::*;

verus! {

/// The container formats an output can be written in.
#[derive(Clone, Copy, Debug, PartialEq, Eq, Structural)]
pub enum Format {
    WebM,
    Mp4,
}

impl Default for Format {
    fn default() -> (r: Format)
        ensures
            r == Format::Mp4,
    {
        Format::Mp4
    }
}

impl Format {
    pub open spec fn short_name_spec(self) -> Seq<char> {
        match self {
            Format::WebM => "webm"@,
            Format::Mp4 => "mp4"@,
        }
    }

    pub open spec fn mime_type_spec(self) -> Seq<char> {
        match self {
            Format::WebM => "video/webm"@,
            Format::Mp4 => "video/mp4"@,
        }
    }

    /// The short name by which the container library knows the format.
    pub fn short_name(&self) -> (r: &'static str)
        ensures
            r@ == self.short_name_spec(),
    {
        match self {
            Format::WebM => "webm",
            Format::Mp4 => "mp4",
        }
    }

    pub fn mime_type(&self) -> (r: &'static str)
        ensures
            r@ == self.mime_type_spec(),
    {
        match self {
            Format::WebM => "video/webm",
            Format::Mp4 => "video/mp4",
        }
    }
}

} // verus!
