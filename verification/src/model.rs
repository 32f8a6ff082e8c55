//! Model objects for paginated resources: pages, cursors, categories and
//! devices.

use vstd::prelude::*;

verus! {

/// An image attached to a resource.
#[derive(Clone, Debug)]
pub struct Image {
    pub url: String,
    pub height: Option<u32>,
    pub width: Option<u32>,
}

/// Category object.
#[derive(Clone, Debug)]
pub struct Category {
    pub href: String,
    pub icons: Vec<Image>,
    pub id: String,
    pub name: String,
}

/// Intermediate categories wrapped by a page object.
pub struct PageCategory {
    pub categories: Page<Category>,
}

/// Paging object: one fetched batch of items together with the request
/// descriptor and the continuation indicator (`next`).
#[derive(Clone, Debug)]
pub struct Page<T> {
    pub href: String,
    pub items: Vec<T>,
    pub limit: u32,
    pub next: Option<String>,
    pub offset: u32,
    pub previous: Option<String>,
    pub total: u32,
}

/// Cursor-based paging object.
#[derive(Clone, Debug)]
pub struct CursorBasedPage<T> {
    pub href: String,
    pub items: Vec<T>,
    pub limit: u32,
    pub next: Option<String>,
    pub cursors: Option<Cursor>,
    /// Absent once all data items have been read.
    pub total: Option<u32>,
}

/// Cursor object.
#[derive(Clone, Debug)]
pub struct Cursor {
    pub after: Option<String>,
}

/// The kind of playback device.
#[derive(Clone, Copy, Debug, PartialEq, Eq, Structural)]
pub enum DeviceType {
    Computer,
    Tablet,
    Smartphone,
    Speaker,
    Tv,
    Avr,
    Stb,
    AudioDongle,
    GameConsole,
    CastVideo,
    CastAudio,
    Automobile,
    Unknown,
}

/// Device object.
#[derive(Clone, Debug)]
pub struct Device {
    pub id: Option<String>,
    pub is_active: bool,
    pub is_private_session: bool,
    pub is_restricted: bool,
    pub name: String,
    pub device_type: DeviceType,
    pub volume_percent: Option<u32>,
}

/// Intermediate device payload object.
pub struct DevicePayload {
    pub devices: Vec<Device>,
}

/// The MD5 digest of a byte sequence, as the md-5 crate computes it: a
/// function of the input bytes alone.
pub uninterp spec fn md5_of(bytes: Seq<u8>) -> Seq<u8>;

/// Relies on `md5::Md5` of the md-5 crate, driven through
/// `digest::Digest`: the digest of the input bytes, sixteen bytes long
/// and depending on the input alone.
#[verifier::external_body]
fn md5_digest(bytes: &Vec<u8>) -> (r: Vec<u8>)
    ensures
        r@ == md5_of(bytes@),
        r@.len() == 16,
{
    let mut hasher = <md5::Md5 as digest::Digest>::new();
    digest::Digest::update(&mut hasher, bytes.as_slice());
    digest::Digest::finalize(hasher).to_vec()
}

/// The fixed bytes hashed in front of the data: the ASCII text
/// `prefix-`.
pub open spec fn spec_md5_prefix() -> Seq<u8> {
    seq![112u8, 114u8, 101u8, 102u8, 105u8, 120u8, 45u8]
}

/// Computes an MD5 hash of the provided data behind a fixed prefix.
pub fn compute_md5_with_prefix(data: &[u8]) -> (r: Vec<u8>)
    ensures
        r@ == md5_of(spec_md5_prefix() + data@),
        r@.len() == 16,
{
    let mut buf: Vec<u8> = Vec::new();
    buf.push(112);
    buf.push(114);
    buf.push(101);
    buf.push(102);
    buf.push(105);
    buf.push(120);
    buf.push(45);
    proof {
        assert(buf@ =~= spec_md5_prefix() + data@.take(0));
    }
    let mut i: usize = 0;
    while i < data.len()
        invariant
            i <= data@.len(),
            buf@ == spec_md5_prefix() + data@.take(i as int),
        decreases data@.len() - i,
    {
        let b = data[i];
        buf.push(b);
        proof {
            assert(spec_md5_prefix() + data@.take(i + 1) =~= (spec_md5_prefix() + data@.take(
                i as int,
            )).push(data@[i as int]));
        }
        i += 1;
    }
    proof {
        assert(spec_md5_prefix() + data@.take(data@.len() as int) =~= spec_md5_prefix() + data@);
    }
    md5_digest(&buf)
}

/// The decimal digits, as a sequence of characters.
pub open spec fn spec_digits() -> Seq<char> {
    "0123456789"@
}

/// Returns a message naming the decimal digit at position `n`, or an error
/// when `n` is out of range.
pub fn get_char_at_position(n: usize) -> (r: Result<String, ()>)
    ensures
        n < 10 ==> (r is Ok && r->Ok_0@ == seq!['C', 'h', 'a', 'r', ':', ' '].push(
            spec_digits()[n as int],
        )),
        n >= 10 ==> r is Err,
{
    proof {
        reveal_strlit("0123456789");
        reveal_strlit("Char: 0");
        reveal_strlit("Char: 1");
        reveal_strlit("Char: 2");
        reveal_strlit("Char: 3");
        reveal_strlit("Char: 4");
        reveal_strlit("Char: 5");
        reveal_strlit("Char: 6");
        reveal_strlit("Char: 7");
        reveal_strlit("Char: 8");
        reveal_strlit("Char: 9");
    }
    let s = match n {
        0 => "Char: 0",
        1 => "Char: 1",
        2 => "Char: 2",
        3 => "Char: 3",
        4 => "Char: 4",
        5 => "Char: 5",
        6 => "Char: 6",
        7 => "Char: 7",
        8 => "Char: 8",
        9 => "Char: 9",
        _ => {
            return Err(());
        },
    };
    Ok(String::from_str(s))
}

} // verus!
