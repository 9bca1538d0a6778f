//! The header of a cartridge image.
use vstd::prelude::*;
use vstd::slice::slice_subrange;

verus! {

/// The byte every cartridge header holds at [`H_MAGIC`].
pub const MAGIC_NUMBER: u8 = 0x96;

/// The number of bytes a cartridge header takes.
pub const HEADER_SIZE: usize = 192;

/// The length of the game title, in bytes.
pub const GAME_TITLE_SIZE: usize = 12;

/// The length of the game code, in bytes.
pub const GAME_CODE_SIZE: usize = 4;

/// The length of the maker code, in bytes.
pub const MAKER_CODE_SIZE: usize = 2;

/// Where the game title starts.
pub const H_GAME_TITLE: usize = 0x0A0;

/// Where the game code starts.
pub const H_GAME_CODE: usize = 0x0AC;

/// Where the maker code starts.
pub const H_MAKER_CODE: usize = 0x0B0;

/// Where the magic number stands.
pub const H_MAGIC: usize = 0x0B2;

/// Why an image was refused as a cartridge.
#[derive(Clone, Copy, Debug, PartialEq, Eq, Structural)]
pub enum HeaderError {
    /// The image, of the length given, is shorter than a header.
    TooSmall(usize),
    /// The byte at [`H_MAGIC`] is not [`MAGIC_NUMBER`].
    InvalidMagic,
}

/// The text that [`String::from_utf8_lossy`] makes of a run of bytes: the
/// bytes read as UTF-8, with U+FFFD in place of what is not.
pub uninterp spec fn lossy_text(bytes: Seq<u8>) -> Seq<char>;

/// Calls `String::from_utf8_lossy` and takes the text it gives as an owned
/// string. The contract claims only that the text depends on the bytes
/// alone; it is named, not spelled out.
#[verifier::external_body]
fn text_of(bytes: &[u8]) -> (text: String)
    ensures
        text@ == lossy_text(bytes@),
{
    String::from_utf8_lossy(bytes).into_owned()
}

/// The three texts of a cartridge header.
pub struct HeaderText {
    pub game_title: Seq<char>,
    pub game_code: Seq<char>,
    pub maker_code: Seq<char>,
}

/// What an image holds as its header, or why it holds none.
///
/// An image shorter than a header is too small. One whose magic byte is
/// wrong is invalid. Of any other, title, code and maker are the texts of
/// their byte ranges.
pub open spec fn parse_header(image: Seq<u8>) -> Result<HeaderText, HeaderError> {
    if image.len() < HEADER_SIZE {
        Err(HeaderError::TooSmall(image.len() as usize))
    } else if image[H_MAGIC as int] != MAGIC_NUMBER {
        Err(HeaderError::InvalidMagic)
    } else {
        Ok(
            HeaderText {
                game_title: lossy_text(
                    image.subrange(H_GAME_TITLE as int, H_GAME_TITLE + GAME_TITLE_SIZE),
                ),
                game_code: lossy_text(
                    image.subrange(H_GAME_CODE as int, H_GAME_CODE + GAME_CODE_SIZE),
                ),
                maker_code: lossy_text(
                    image.subrange(H_MAKER_CODE as int, H_MAKER_CODE + MAKER_CODE_SIZE),
                ),
            },
        )
    }
}

/// The header of a cartridge image.
pub struct Header {
    game_title: String,
    game_code: String,
    maker_code: String,
}

impl View for Header {
    type V = HeaderText;

    closed spec fn view(&self) -> HeaderText {
        HeaderText {
            game_title: self.game_title@,
            game_code: self.game_code@,
            maker_code: self.maker_code@,
        }
    }
}

impl Header {
    /// A header made of its three texts.
    pub fn new(game_title: String, game_code: String, maker_code: String) -> (header: Header)
        ensures
            header@ == (HeaderText {
                game_title: game_title@,
                game_code: game_code@,
                maker_code: maker_code@,
            }),
    {
        Header { game_title, game_code, maker_code }
    }

    /// Reads the header of a cartridge image.
    pub fn load(data: &[u8]) -> (r: Result<Header, HeaderError>)
        ensures
            match r {
                Ok(header) => parse_header(data@) == Ok::<HeaderText, HeaderError>(header@),
                Err(error) => parse_header(data@) == Err::<HeaderText, HeaderError>(error),
            },
    {
        if data.len() < HEADER_SIZE {
            return Err(HeaderError::TooSmall(data.len()));
        }
        if data[H_MAGIC] != MAGIC_NUMBER {
            return Err(HeaderError::InvalidMagic);
        }
        Ok(
            Header::new(
                text_of(slice_subrange(data, H_GAME_TITLE, H_GAME_TITLE + GAME_TITLE_SIZE)),
                text_of(slice_subrange(data, H_GAME_CODE, H_GAME_CODE + GAME_CODE_SIZE)),
                text_of(slice_subrange(data, H_MAKER_CODE, H_MAKER_CODE + MAKER_CODE_SIZE)),
            ),
        )
    }

    /// The title of the game.
    pub fn game_title(&self) -> (text: &str)
        ensures
            text@ == self@.game_title,
    {
        self.game_title.as_str()
    }

    /// The code of the game.
    pub fn game_code(&self) -> (text: &str)
        ensures
            text@ == self@.game_code,
    {
        self.game_code.as_str()
    }

    /// The code of the game's maker.
    pub fn maker_code(&self) -> (text: &str)
        ensures
            text@ == self@.maker_code,
    {
        self.maker_code.as_str()
    }
}

} // verus!
