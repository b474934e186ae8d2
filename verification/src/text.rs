//! Text as MIDI files hold it: bytes in an encoding that the format does
//! not name. A `Text` holds a `String` where the bytes are UTF-8, and the
//! bytes themselves where they are not, so that nothing is lost.

use vstd::prelude::*;
use vstd::std_specs::convert::FromSpecImpl;
use vstd::string::*;
use vstd::utf8::*;

verus! {

/// Text of an encoding that the format leaves open.
#[derive(Clone, Debug, PartialEq, Eq, PartialOrd, Ord, Hash)]
pub enum Text {
    /// A UTF-8 encoded string.
    Utf8(String),
    /// Bytes that are not UTF-8, probably a string in another encoding.
    Other(Vec<u8>),
}

/// A text as contracts speak of it.
pub struct TextView {
    /// The bytes of the text, as a file holds them.
    pub bytes: Seq<u8>,
    /// Whether the text is held as a string.
    pub utf8: bool,
}

impl View for Text {
    type V = TextView;

    open spec fn view(&self) -> TextView {
        match self {
            Text::Utf8(s) => TextView { bytes: encode_utf8(s@), utf8: true },
            Text::Other(b) => TextView { bytes: b@, utf8: false },
        }
    }
}

/// The text that `bytes` are read as: a string where they are UTF-8.
pub open spec fn text_of(bytes: Seq<u8>) -> TextView {
    TextView { bytes, utf8: valid_utf8(bytes) }
}

/// The text of a string.
pub open spec fn text_of_str(s: Seq<char>) -> TextView {
    TextView { bytes: encode_utf8(s), utf8: true }
}

/// What `String::from_utf8_lossy` makes of `bytes`: their text, with the
/// replacement character in place of whatever is not UTF-8.
pub uninterp spec fn lossy_text(bytes: Seq<u8>) -> Seq<char>;

/// `String::from_utf8`, with the bytes handed back where it refuses them
/// (`FromUtf8Error::into_bytes`). Bytes that are UTF-8 become a string of
/// those bytes; others come back unchanged.
#[verifier::external_body]
fn string_from_utf8(bytes: Vec<u8>) -> (r: Result<String, Vec<u8>>)
    ensures
        r is Ok <==> valid_utf8(bytes@),
        r matches Ok(s) ==> encode_utf8(s@) == bytes@,
        r matches Err(b) ==> b@ == bytes@,
{
    match String::from_utf8(bytes) {
        Ok(s) => Ok(s),
        Err(e) => Err(e.into_bytes()),
    }
}

/// `String::from_utf8_lossy`, as an owned string (`Cow::into_owned`).
#[verifier::external_body]
fn string_from_utf8_lossy(bytes: &[u8]) -> (r: String)
    ensures
        r@ == lossy_text(bytes@),
{
    String::from_utf8_lossy(bytes).into_owned()
}

impl Text {
    /// A text that holds a string.
    pub fn new(s: &str) -> (r: Self)
        ensures
            r is Utf8,
            r->Utf8_0@ == s@,
            r@ == text_of_str(s@),
    {
        Text::Utf8(String::from_str(s))
    }

    /// The text of `bytes`: a string where they are UTF-8, the bytes
    /// themselves where they are not.
    pub fn from_bytes(bytes: Vec<u8>) -> (r: Self)
        ensures
            r@ == text_of(bytes@),
    {
        match string_from_utf8(bytes) {
            Ok(s) => Text::Utf8(s),
            Err(b) => Text::Other(b),
        }
    }

    /// The bytes of the text.
    pub fn as_bytes(&self) -> (r: &[u8])
        ensures
            r@ == self@.bytes,
    {
        match self {
            Text::Utf8(s) => s.as_str().as_bytes(),
            Text::Other(b) => b.as_slice(),
        }
    }

    /// The text as a string. Where the bytes are not UTF-8 this is a
    /// best-effort rendering for display.
    pub fn as_str(&self) -> (r: String)
        ensures
            match self {
                Text::Utf8(s) => r@ == s@,
                Text::Other(b) => r@ == lossy_text(b@),
            },
    {
        match self {
            Text::Utf8(s) => s.clone(),
            Text::Other(b) => string_from_utf8_lossy(b.as_slice()),
        }
    }
}

impl Default for Text {
    fn default() -> (r: Self)
        ensures
            r@ == text_of_str(Seq::<char>::empty()),
            r@.bytes == Seq::<u8>::empty(),
    {
        let r = Text::Utf8(String::new());
        assert(encode_utf8(Seq::<char>::empty()) =~= Seq::<u8>::empty());
        r
    }
}

impl From<Vec<u8>> for Text {
    fn from(bytes: Vec<u8>) -> (r: Self)
        ensures
            r@ == text_of(bytes@),
    {
        Text::from_bytes(bytes)
    }
}

impl FromSpecImpl<Vec<u8>> for Text {
    open spec fn obeys_from_spec() -> bool {
        false
    }

    open spec fn from_spec(bytes: Vec<u8>) -> Self {
        Text::Other(bytes)
    }
}

impl From<String> for Text {
    fn from(s: String) -> (r: Self)
        ensures
            r@ == text_of_str(s@),
    {
        Text::Utf8(s)
    }
}

impl FromSpecImpl<String> for Text {
    open spec fn obeys_from_spec() -> bool {
        true
    }

    open spec fn from_spec(s: String) -> Self {
        Text::Utf8(s)
    }
}

/// The string of a text. Where the text is not UTF-8, the string is a
/// best-effort rendering.
impl From<Text> for String {
    fn from(t: Text) -> (r: Self)
        ensures
            match t {
                Text::Utf8(s) => r@ == s@,
                Text::Other(b) => r@ == lossy_text(b@),
            },
    {
        match t {
            Text::Utf8(s) => s,
            Text::Other(b) => string_from_utf8_lossy(b.as_slice()),
        }
    }
}

impl FromSpecImpl<Text> for String {
    open spec fn obeys_from_spec() -> bool {
        false
    }

    open spec fn from_spec(t: Text) -> Self {
        arbitrary()
    }
}

impl From<&str> for Text {
    fn from(s: &str) -> (r: Self)
        ensures
            r@ == text_of_str(s@),
    {
        Text::new(s)
    }
}

impl FromSpecImpl<&str> for Text {
    open spec fn obeys_from_spec() -> bool {
        false
    }

    open spec fn from_spec(s: &str) -> Self {
        arbitrary()
    }
}

} // verus!
