//! Cartridges.
use crate::gamepak::header::{parse_header, HeaderError, HeaderText};
use vstd::prelude::*;

pub mod header;

pub use header::Header;

verus! {

/// A cartridge: its image and the header read from it.
pub struct GamePak {
    header: Header,
    data: Vec<u8>,
}

impl View for GamePak {
    type V = Seq<u8>;

    /// The bytes of the image.
    closed spec fn view(&self) -> Seq<u8> {
        self.data@
    }
}

impl GamePak {
    /// The texts of the cartridge's header.
    pub closed spec fn header_text(&self) -> HeaderText {
        self.header@
    }

    /// Takes `data` as a cartridge image if it holds a header.
    pub fn load(data: Vec<u8>) -> (r: Result<GamePak, HeaderError>)
        ensures
            match r {
                Ok(pak) => pak@ == data@ && parse_header(data@) == Ok::<HeaderText, HeaderError>(
                    pak.header_text(),
                ),
                Err(error) => parse_header(data@) == Err::<HeaderText, HeaderError>(error),
            },
    {
        match Header::load(data.as_slice()) {
            Ok(h) => Ok(GamePak { header: h, data }),
            Err(error) => Err(error),
        }
    }

    /// The header read from the image.
    pub fn header(&self) -> (header: &Header)
        ensures
            header@ == self.header_text(),
    {
        &self.header
    }

    /// The bytes of the image.
    pub fn data(&self) -> (data: &[u8])
        ensures
            data@ == self@,
    {
        self.data.as_slice()
    }
}

} // verus!
