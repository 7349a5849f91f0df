use hartex::cdn::{icon_url, Cdn, GuildId, ImageHash};
use hartex::text::u64_to_decimal;

#[test]
fn decimal_of_small_and_large_numbers() {
    assert_eq!(u64_to_decimal(0), "0");
    assert_eq!(u64_to_decimal(7), "7");
    assert_eq!(u64_to_decimal(10), "10");
    assert_eq!(u64_to_decimal(1234567890), "1234567890");
    assert_eq!(u64_to_decimal(u64::MAX), "18446744073709551615");
}

#[test]
fn decimal_matches_display() {
    for n in [1u64, 9, 99, 100, 101, 65535, 4294967296, 1_000_000_000_000] {
        assert_eq!(u64_to_decimal(n), n.to_string());
    }
}

fn parsed_hash(text: &str) -> ImageHash {
    let hash = twilight_model::util::ImageHash::parse(text.as_bytes()).unwrap();
    ImageHash::new(hash.bytes(), hash.is_animated())
}

#[test]
fn guild_icon_static_is_png() {
    let icon = parsed_hash("b2a6536641da91a0b59bd66557c56c36");
    let url = Cdn::guild_icon(&GuildId::new(81384788765712384), &icon);
    assert_eq!(
        url,
        "https://cdn.discordapp.com/icons/81384788765712384/b2a6536641da91a0b59bd66557c56c36.png"
    );
}

#[test]
fn guild_icon_animated_is_gif() {
    let icon = parsed_hash("a_b0e09d6697b11e9c79a89e5e3756ddee");
    assert!(icon.is_animated());
    let url = Cdn::guild_icon(&GuildId::new(42), &icon);
    assert_eq!(
        url,
        "https://cdn.discordapp.com/icons/42/a_b0e09d6697b11e9c79a89e5e3756ddee.gif"
    );
}

#[test]
fn guild_icon_of_raw_parts() {
    let icon = ImageHash::new([0; 16], false);
    let url = Cdn::guild_icon(&GuildId::new(1), &icon);
    assert_eq!(
        url,
        "https://cdn.discordapp.com/icons/1/00000000000000000000000000000000.png"
    );
}

#[test]
fn icon_url_from_hash_text() {
    let url = icon_url(&GuildId::new(5), "abc", true);
    assert_eq!(url, "https://cdn.discordapp.com/icons/5/abc.gif");
    let url = icon_url(&GuildId::new(5), "abc", false);
    assert_eq!(url, "https://cdn.discordapp.com/icons/5/abc.png");
}

#[test]
fn url_base_constant() {
    assert_eq!(Cdn::URL_BASE, "https://cdn.discordapp.com/");
    assert_eq!(GuildId::new(77).get(), 77);
}

#[test]
fn guild_icon_of_clyde_hash() {
    let clyde = twilight_model::util::ImageHash::CLYDE;
    let icon = ImageHash::new(clyde.bytes(), clyde.is_animated());
    let url = Cdn::guild_icon(&GuildId::new(9), &icon);
    assert_eq!(url, "https://cdn.discordapp.com/icons/9/clyde.gif");
}

#[test]
fn guild_icon_bytes_reversed_high_nibble_first() {
    let mut bytes = [0u8; 16];
    bytes[15] = 0x1d;
    bytes[0] = 0xfc;
    let url = Cdn::guild_icon(&GuildId::new(3), &ImageHash::new(bytes, false));
    assert_eq!(url, "https://cdn.discordapp.com/icons/3/1d0000000000000000000000000000fc.png");
}
