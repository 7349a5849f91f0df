//! Links to images on Discord's CDN.

use vstd::prelude::*;

use crate::text::{all_digits, decimal, digit_char, digits_value, lemma_decimal_reads_back, u64_to_decimal};

verus! {

/// The identifier of a guild: a non-zero snowflake.
#[derive(Clone, Copy, Debug, PartialEq, Eq, Structural)]
pub struct GuildId {
    value: u64,
}

impl GuildId {
    /// The snowflake as a number.
    pub closed spec fn spec_value(&self) -> u64 {
        self.value
    }

    /// Makes the identifier of the guild with the given non-zero snowflake.
    pub fn new(value: u64) -> (id: GuildId)
        requires
            value != 0,
        ensures
            id.spec_value() == value,
    {
        GuildId { value }
    }

    /// The snowflake as a number.
    pub fn get(&self) -> (v: u64)
        ensures
            v == self.spec_value(),
    {
        self.value
    }
}

/// A Discord image hash: 16 packed bytes and whether the image is animated,
/// the parts of which an image hash of the Discord model is made.
#[derive(Clone, Copy, Debug)]
pub struct ImageHash {
    bytes: [u8; 16],
    animated: bool,
}

impl ImageHash {
    /// The packed bytes.
    pub closed spec fn spec_bytes(&self) -> Seq<u8> {
        self.bytes@
    }

    /// Whether the image is animated.
    pub closed spec fn spec_animated(&self) -> bool {
        self.animated
    }

    /// Makes an image hash from its raw parts.
    pub fn new(bytes: [u8; 16], animated: bool) -> (h: ImageHash)
        ensures
            h.spec_bytes() == bytes@,
            h.spec_animated() == animated,
    {
        ImageHash { bytes, animated }
    }

    /// Whether the hash is for an animated image.
    pub fn is_animated(&self) -> (a: bool)
        ensures
            a == self.spec_animated(),
    {
        self.animated
    }
}

/// The character of a hexadecimal digit, lower case.
pub open spec fn hex_digit(d: nat) -> char {
    if d < 10 {
        digit_char(d)
    } else if d == 10 {
        'a'
    } else if d == 11 {
        'b'
    } else if d == 12 {
        'c'
    } else if d == 13 {
        'd'
    } else if d == 14 {
        'e'
    } else {
        'f'
    }
}

/// The hexadecimal digits of the bytes taken from the last to the first,
/// the high nibble of each byte before its low nibble.
pub open spec fn hex_reversed(bytes: Seq<u8>) -> Seq<char>
    decreases bytes.len(),
{
    if bytes.len() == 0 {
        Seq::empty()
    } else {
        seq![hex_digit((bytes.last() / 16) as nat), hex_digit((bytes.last() % 16) as nat)]
            + hex_reversed(bytes.drop_last())
    }
}

/// The parts are those of Clyde AI's avatar hash: animated, with the bytes
/// `c l y d e` followed by zeros.
pub open spec fn is_clyde(bytes: Seq<u8>, animated: bool) -> bool {
    &&& animated
    &&& bytes.len() == 16
    &&& bytes[0] == 99u8
    &&& bytes[1] == 108u8
    &&& bytes[2] == 121u8
    &&& bytes[3] == 100u8
    &&& bytes[4] == 101u8
    &&& forall|i: int| 5 <= i < 16 ==> bytes[i] == 0u8
}

/// The text to which the Discord model formats an image hash with the given
/// parts: `clyde` for Clyde's hash; otherwise `a_` if animated, then the
/// 32 hex digits of the bytes in reverse order.
pub open spec fn image_hash_text(bytes: Seq<u8>, animated: bool) -> Seq<char> {
    if is_clyde(bytes, animated) {
        "clyde"@
    } else if animated {
        "a_"@ + hex_reversed(bytes)
    } else {
        hex_reversed(bytes)
    }
}

/// Formats an image hash as `twilight_model::util::ImageHash`'s `Display`
/// does (`ImageHash::new` then `to_string`): `clyde` for `ImageHash::CLYDE`,
/// otherwise `a_` when animated followed by the nibbles of the bytes from the
/// last byte to the first, high nibble first, as `0`-`9` and `a`-`f`.
#[verifier::external_body]
fn image_hash_to_string(hash: &ImageHash) -> (s: String)
    ensures
        s@ == image_hash_text(hash.spec_bytes(), hash.spec_animated()),
{
    twilight_model::util::ImageHash::new(hash.bytes, hash.animated).to_string()
}

/// The URL of a guild icon with the given hash text.
pub open spec fn icon_url_text(guild_id: u64, hash_text: Seq<char>, animated: bool) -> Seq<char> {
    "https://cdn.discordapp.com/"@ + "icons/"@ + decimal(guild_id as nat) + "/"@ + hash_text + (
    if animated {
        ".gif"@
    } else {
        ".png"@
    })
}

/// The URL of a guild icon is the icons directory of the CDN, then a path
/// segment of decimal digits that reads back as the whole guild id, then `/`,
/// the hash text, and `.gif` for an animated icon or `.png` otherwise.
pub proof fn lemma_icon_url_names_guild(guild_id: u64, hash_text: Seq<char>, animated: bool)
    ensures
        exists|segment: Seq<char>|
            #![trigger digits_value(segment)]
            segment.len() > 0 && all_digits(segment) && digits_value(segment) == guild_id
                && icon_url_text(guild_id, hash_text, animated) == "https://cdn.discordapp.com/icons/"@
                + segment + "/"@ + hash_text + (if animated {
                ".gif"@
            } else {
                ".png"@
            }),
{
    reveal_strlit("https://cdn.discordapp.com/");
    reveal_strlit("icons/");
    reveal_strlit("https://cdn.discordapp.com/icons/");
    let segment = decimal(guild_id as nat);
    lemma_decimal_reads_back(guild_id as nat);
    assert("https://cdn.discordapp.com/"@ + "icons/"@ =~= "https://cdn.discordapp.com/icons/"@);
    assert(icon_url_text(guild_id, hash_text, animated) =~= "https://cdn.discordapp.com/icons/"@
        + segment + "/"@ + hash_text + (if animated {
        ".gif"@
    } else {
        ".png"@
    }));
    assert(digits_value(segment) == guild_id);
}

/// Builds a guild icon URL from the guild, the formatted hash and whether the
/// image is animated.
pub fn icon_url(guild_id: &GuildId, hash_text: &str, animated: bool) -> (url: String)
    ensures
        url@ == icon_url_text(guild_id.spec_value(), hash_text@, animated),
{
    proof {
        reveal_strlit("https://cdn.discordapp.com/");
        reveal_strlit("icons/");
        reveal_strlit("/");
        reveal_strlit(".gif");
        reveal_strlit(".png");
    }
    let mut url = String::from_str(Cdn::URL_BASE);
    url.append("icons/");
    let id = u64_to_decimal(guild_id.get());
    url.append(id.as_str());
    url.append("/");
    url.append(hash_text);
    if animated {
        url.append(".gif");
    } else {
        url.append(".png");
    }
    url
}

/// Discord's content delivery network.
pub struct Cdn;

impl Cdn {
    /// The base of every CDN URL.
    pub const URL_BASE: &'static str = "https://cdn.discordapp.com/";

    /// The URL of a guild's icon: a GIF for an animated icon, else a PNG.
    pub fn guild_icon(guild_id: &GuildId, icon: &ImageHash) -> (url: String)
        ensures
            url@ == icon_url_text(
                guild_id.spec_value(),
                image_hash_text(icon.spec_bytes(), icon.spec_animated()),
                icon.spec_animated(),
            ),
    {
        let hash_text = image_hash_to_string(icon);
        icon_url(guild_id, hash_text.as_str(), icon.is_animated())
    }
}

} // verus!
