use hartex::handler::{EventHandler, Identifying, Ready};

#[test]
fn ready_line() {
    let payload = Ready {
        user_name: String::from("HarTex"),
        discriminator: 6513,
        user_id: 936431574310879332,
        version: 10,
    };
    assert_eq!(
        EventHandler::ready(&payload),
        "HarTex#6513 [id: 936431574310879332] has successfully startup; using discord api v10"
    );
}

#[test]
fn ready_line_discriminator_unpadded() {
    let payload = Ready { user_name: String::from("bot"), discriminator: 7, user_id: 1, version: 9 };
    assert_eq!(
        EventHandler::ready(&payload),
        "bot#7 [id: 1] has successfully startup; using discord api v9"
    );
}

#[test]
fn shard_identifying_line() {
    let payload = Identifying { shard_id: 0, shard_total: 3 };
    assert_eq!(
        EventHandler::shard_identifying(&payload),
        "shard 0 out of 3 is identifying with the discord gateway"
    );
}
