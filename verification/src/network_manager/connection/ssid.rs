//! A wifi SSID: up to 32 octets with an unspecified (usually UTF-8) encoding.

use vstd::prelude::*;
use vstd::utf8::{decode_utf8, encode_utf8, valid_utf8};
use crate::network_manager::errors::NetworkManagerError;
use crate::text::{concat, decimal, push_char, str_bytes, string_from_utf8, u64_to_decimal};

verus! {

#[derive(Clone, PartialEq, Eq, PartialOrd, Ord, Hash, Debug)]
pub struct Ssid {
    vec: Vec<u8>,
}

impl View for Ssid {
    type V = Seq<u8>;

    closed spec fn view(&self) -> Seq<u8> {
        self.vec@
    }
}

/// The lower case hexadecimal digit for a value below 16.
pub open spec fn hex_digit(d: int) -> char {
    if d < 10 {
        (d + 48) as char
    } else {
        (d + 87) as char
    }
}

/// The ASCII escape of a byte: tab, carriage return, line feed, quotes and the backslash
/// escaped with a backslash, other printable ASCII characters as they are, any other byte
/// as "\x" followed by two lower case hexadecimal digits.
pub open spec fn escape_byte(b: u8) -> Seq<char> {
    if b == 9 {
        seq!['\\', 't']
    } else if b == 13 {
        seq!['\\', 'r']
    } else if b == 10 {
        seq!['\\', 'n']
    } else if b == 39 {
        seq!['\\', '\'']
    } else if b == 34 {
        seq!['\\', '"']
    } else if b == 92 {
        seq!['\\', '\\']
    } else if 0x20 <= b <= 0x7e {
        seq![b as char]
    } else {
        seq!['\\', 'x', hex_digit((b / 16) as int), hex_digit((b % 16) as int)]
    }
}

/// The ASCII escape of a byte string.
pub open spec fn escape_bytes(s: Seq<u8>) -> Seq<char>
    decreases s.len(),
{
    if s.len() == 0 {
        Seq::empty()
    } else {
        escape_bytes(s.drop_last()) + escape_byte(s.last())
    }
}

/// The error text for an SSID that is `len` bytes long.
pub open spec fn ssid_too_long_message(len: nat) -> Seq<char> {
    "ssid length should not exceed 32: "@ + decimal(len) + " len"@
}

fn hex(d: u8) -> (c: char)
    requires
        d < 16,
    ensures
        c == hex_digit(d as int),
{
    if d < 10 {
        (d + 48) as char
    } else {
        (d + 87) as char
    }
}

/// Appends the escape of a byte.
fn push_escaped(out: &mut String, b: u8)
    ensures
        final(out)@ == old(out)@ + escape_byte(b),
{
    let ghost start = out@;
    if b == 9 {
        push_char(out, '\\');
        push_char(out, 't');
    } else if b == 13 {
        push_char(out, '\\');
        push_char(out, 'r');
    } else if b == 10 {
        push_char(out, '\\');
        push_char(out, 'n');
    } else if b == 39 {
        push_char(out, '\\');
        push_char(out, '\'');
    } else if b == 34 {
        push_char(out, '\\');
        push_char(out, '"');
    } else if b == 92 {
        push_char(out, '\\');
        push_char(out, '\\');
    } else if 0x20 <= b && b <= 0x7e {
        push_char(out, b as char);
    } else {
        push_char(out, '\\');
        push_char(out, 'x');
        push_char(out, hex(b / 16));
        push_char(out, hex(b % 16));
    }
    assert(out@ =~= start + escape_byte(b));
}

impl Ssid {
    /// The empty SSID.
    pub fn new() -> (r: Self)
        ensures
            r@ == Seq::<u8>::empty(),
    {
        Ssid { vec: Vec::new() }
    }

    /// The SSID with the given octets.
    pub fn from_bytes(bytes: Vec<u8>) -> (r: Self)
        ensures
            r@ == bytes@,
    {
        Ssid { vec: bytes }
    }

    /// The octets.
    pub fn into_vec(self) -> (r: Vec<u8>)
        ensures
            r@ == self@,
    {
        self.vec
    }

    /// The octets.
    pub fn data(&self) -> (r: &Vec<u8>)
        ensures
            r@ == self@,
    {
        &self.vec
    }

    /// The octets.
    pub fn as_ref(&self) -> (r: &[u8])
        ensures
            r@ == self@,
    {
        self.vec.as_slice()
    }

    /// True iff both SSIDs have the same octets.
    pub fn same_as(&self, other: &Ssid) -> (r: bool)
        ensures
            r == (self@ == other@),
    {
        if self.vec.len() != other.vec.len() {
            return false;
        }
        let mut i: usize = 0;
        while i < self.vec.len()
            invariant
                self.vec@.len() == other.vec@.len(),
                i <= self.vec@.len(),
                forall|j: int| 0 <= j < i ==> self.vec@[j] == other.vec@[j],
            decreases self.vec@.len() - i,
        {
            if self.vec[i] != other.vec[i] {
                return false;
            }
            i = i + 1;
        }
        assert(self.vec@ =~= other.vec@);
        true
    }

    /// The SSID as text, if it is UTF-8.
    pub fn to_string(&self) -> (r: Option<String>)
        ensures
            r is Some <==> valid_utf8(self@),
            r matches Some(s) ==> s@ == decode_utf8(self@),
    {
        string_from_utf8(self.vec.clone())
    }

    /// The SSID of a text: its UTF-8 octets, which must be at most 32.
    pub fn try_from_str(s: &str) -> (r: Result<Ssid, NetworkManagerError>)
        ensures
            encode_utf8(s@).len() <= 32 ==> (r matches Ok(ssid) && ssid@ == encode_utf8(s@)),
            encode_utf8(s@).len() > 32 ==> (r matches Err(NetworkManagerError::Ssid(m))
                && m@ == ssid_too_long_message(encode_utf8(s@).len())),
    {
        let len = s.as_bytes().len();
        if len > 32 {
            let d = u64_to_decimal(len as u64);
            let mut m = concat("ssid length should not exceed 32: ", d.as_str());
            m.append(" len");
            Err(NetworkManagerError::ssid(m))
        } else {
            Ok(Ssid { vec: str_bytes(s) })
        }
    }

    /// The debug rendering: the escaped octets in double quotes, as in "hello\x00".
    pub fn debug_text(&self) -> (r: String)
        ensures
            r@ == seq!['"'] + escape_bytes(self@) + seq!['"'],
    {
        let mut out = String::new();
        push_char(&mut out, '"');
        let mut i: usize = 0;
        while i < self.vec.len()
            invariant
                i <= self.vec@.len(),
                out@ == seq!['"'] + escape_bytes(self.vec@.take(i as int)),
            decreases self.vec@.len() - i,
        {
            assert(self.vec@.take(i + 1).drop_last() =~= self.vec@.take(i as int));
            push_escaped(&mut out, self.vec[i]);
            i = i + 1;
        }
        assert(self.vec@.take(self.vec@.len() as int) =~= self.vec@);
        push_char(&mut out, '"');
        out
    }
}

impl<'a> TryFrom<&'a str> for Ssid {
    type Error = NetworkManagerError;

    /// See [`Ssid::try_from_str`].
    fn try_from(s: &'a str) -> (r: Result<Ssid, NetworkManagerError>)
        ensures
            encode_utf8(s@).len() <= 32 ==> (r matches Ok(ssid) && ssid@ == encode_utf8(s@)),
            encode_utf8(s@).len() > 32 ==> r matches Err(NetworkManagerError::Ssid(_)),
    {
        Ssid::try_from_str(s)
    }
}

impl<'a> vstd::std_specs::convert::TryFromSpecImpl<&'a str> for Ssid {
    open spec fn obeys_try_from_spec() -> bool {
        false
    }

    open spec fn try_from_spec(s: &'a str) -> Result<Ssid, NetworkManagerError> {
        arbitrary()
    }
}

impl TryFrom<String> for Ssid {
    type Error = NetworkManagerError;

    /// See [`Ssid::try_from_str`].
    fn try_from(s: String) -> (r: Result<Ssid, NetworkManagerError>)
        ensures
            encode_utf8(s@).len() <= 32 ==> (r matches Ok(ssid) && ssid@ == encode_utf8(s@)),
            encode_utf8(s@).len() > 32 ==> r matches Err(NetworkManagerError::Ssid(_)),
    {
        Ssid::try_from_str(s.as_str())
    }
}

impl vstd::std_specs::convert::TryFromSpecImpl<String> for Ssid {
    open spec fn obeys_try_from_spec() -> bool {
        false
    }

    open spec fn try_from_spec(s: String) -> Result<Ssid, NetworkManagerError> {
        arbitrary()
    }
}

/// An SSID made from a text reads back as that text: the octets `try_from_str` stores
/// for a text are valid UTF-8, and `to_string` decodes them to the same text.
pub proof fn lemma_ssid_text_roundtrip(s: Seq<char>)
    ensures
        valid_utf8(encode_utf8(s)),
        decode_utf8(encode_utf8(s)) == s,
{
    vstd::utf8::encode_utf8_valid_utf8(s);
    vstd::utf8::encode_utf8_decode_utf8(s);
}

} // verus!
