use vstd::prelude::*;

verus! {

/// The encoders this library knows by name. Whether one is present in the
/// linked codec library is found out when it is looked up.
#[derive(Clone, Copy, Debug, PartialEq, Eq, Structural)]
pub enum Name {
    LibAomAv1,
    LibX264,
    LibOpenH264,
}

/// The compression standard an encoder produces.
#[derive(Clone, Copy, Debug, PartialEq, Eq, Structural)]
pub enum Id {
    AV1,
    H264,
}

impl Name {
    pub open spec fn name_spec(self) -> Seq<char> {
        match self {
            Name::LibAomAv1 => "libaom-av1"@,
            Name::LibX264 => "libx264"@,
            Name::LibOpenH264 => "libopenh264"@,
        }
    }

    /// The name under which the codec library registers the encoder.
    pub fn name(&self) -> (r: &'static str)
        ensures
            r@ == self.name_spec(),
    {
        match self {
            Name::LibAomAv1 => "libaom-av1",
            Name::LibX264 => "libx264",
            Name::LibOpenH264 => "libopenh264",
        }
    }

    /// The standard that the encoder produces.
    pub fn id(&self) -> (r: Id)
        ensures
            r == (match self {
                Name::LibAomAv1 => Id::AV1,
                _ => Id::H264,
            }),
    {
        match self {
            Name::LibAomAv1 => Id::AV1,
            Name::LibX264 => Id::H264,
            Name::LibOpenH264 => Id::H264,
        }
    }
}

} // verus!
