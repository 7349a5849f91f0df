use hartex::guild_status::{GetGuildWhitelistStatus, GuildStatusPoll, WHITELIST_CREDENTIALS_VARIABLE};
use hartex::cdn::GuildId;
use hartex::whitelist::{
    exec_future_start, exec_future_step, whitelist_map, FetchEvent, FetchStep,
    GetWhitelistedGuilds, WhitelistPoll, WhitelistedGuild, WHITELIST_QUERY,
};

fn row(name: &str, id: u64) -> WhitelistedGuild {
    WhitelistedGuild { guild_name: name.to_string(), guild_id: id }
}

#[test]
fn map_holds_every_row() {
    let map = whitelist_map(&vec![row("alpha", 1), row("beta", 2)]);
    assert_eq!(map.len(), 2);
    assert_eq!(*map.get("alpha").unwrap(), 1);
    assert_eq!(*map.get("beta").unwrap(), 2);
    assert!(map.get("gamma").is_none());
}

#[test]
fn map_last_row_wins() {
    let map = whitelist_map(&vec![row("alpha", 1), row("beta", 2), row("alpha", 3)]);
    assert_eq!(map.len(), 2);
    assert_eq!(*map.get("alpha").unwrap(), 3);
}

#[test]
fn map_of_no_rows_is_empty() {
    assert!(whitelist_map(&vec![]).is_empty());
}

#[test]
fn fetch_starts_by_reading_credentials() {
    match exec_future_start() {
        FetchStep::ReadCredentials { variable } => assert_eq!(variable, "PGSQL_CREDENTIALS_GUILDS"),
        other => panic!("unexpected step {:?}", other),
    }
}

#[test]
fn fetch_credentials_then_connect() {
    match exec_future_step(FetchEvent::Credentials(Ok("postgres://x".to_string()))) {
        FetchStep::Connect { credentials } => assert_eq!(credentials, "postgres://x"),
        other => panic!("unexpected step {:?}", other),
    }
}

#[test]
fn fetch_credentials_error() {
    match exec_future_step(FetchEvent::Credentials(Err("environment variable not found".to_string()))) {
        FetchStep::Finished(Err(e)) => assert_eq!(
            e.message,
            "failed to get database credentials; error: environment variable not found"
        ),
        other => panic!("unexpected step {:?}", other),
    }
}

#[test]
fn fetch_connected_then_query() {
    match exec_future_step(FetchEvent::Connected(Ok(()))) {
        FetchStep::Query { sql } => {
            assert_eq!(sql, "SELECT * FROM public.\"Whitelist\"");
            assert_eq!(sql, WHITELIST_QUERY);
        }
        other => panic!("unexpected step {:?}", other),
    }
}

#[test]
fn fetch_connect_error() {
    match exec_future_step(FetchEvent::Connected(Err("PoolTimedOut".to_string()))) {
        FetchStep::Finished(Err(e)) => assert_eq!(
            e.message,
            "failed to connect to postgres database pool; error: `PoolTimedOut`"
        ),
        other => panic!("unexpected step {:?}", other),
    }
}

#[test]
fn fetch_rows_give_map() {
    match exec_future_step(FetchEvent::Rows(Ok(vec![row("g", 9)]))) {
        FetchStep::Finished(Ok(map)) => assert_eq!(*map.get("g").unwrap(), 9),
        other => panic!("unexpected step {:?}", other),
    }
}

#[test]
fn fetch_query_error() {
    match exec_future_step(FetchEvent::Rows(Err("RowNotFound".to_string()))) {
        FetchStep::Finished(Err(e)) => {
            assert_eq!(e.message, "failed to execute sql query; error `RowNotFound`")
        }
        other => panic!("unexpected step {:?}", other),
    }
}

#[test]
fn whitelist_future_starts_once() {
    let mut future = GetWhitelistedGuilds::default();
    assert!(matches!(future.poll(), WhitelistPoll::Launch));
    assert!(matches!(future.poll(), WhitelistPoll::Resume));
    assert!(matches!(future.poll(), WhitelistPoll::Resume));
}

#[test]
fn guild_status_relaunches_every_poll() {
    let mut future = GetGuildWhitelistStatus::new(GuildId::new(1234));
    for _ in 0..3 {
        match future.poll() {
            GuildStatusPoll::LaunchAndPoll { guild_id } => assert_eq!(guild_id.get(), 1234),
        }
    }
    assert_eq!(WHITELIST_CREDENTIALS_VARIABLE, "PGSQL_WHITELIST_DB_CREDENTIALS");
}

#[test]
fn whitelist_future_many_polls_start_once() {
    let mut future = GetWhitelistedGuilds::default();
    let launches = (0..10).filter(|_| matches!(future.poll(), WhitelistPoll::Launch)).count();
    assert_eq!(launches, 1);
}
