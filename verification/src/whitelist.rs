//! The guild whitelist: the future that fetches the whitelisted guilds, the
//! decisions of the fetch, and the map of whitelisted guilds it builds.

use vstd::prelude::*;

verus! {

/// `dashmap::DashMap`, a concurrent hash map, declared so that it can be
/// held and passed; its contents are known only through `guild_map_contents`.
#[verifier::external_type_specification]
#[verifier::external_body]
#[verifier::reject_recursive_types(K)]
#[verifier::reject_recursive_types(V)]
#[verifier::reject_recursive_types(S)]
pub struct ExDashMap<K, V, S>(dashmap::DashMap<K, V, S>);

/// A map from guild names to guild ids.
pub type GuildMap = dashmap::DashMap<String, u64>;

/// What a map of whitelisted guilds holds: guild names to guild ids.
pub uninterp spec fn guild_map_contents(map: GuildMap) -> Map<Seq<char>, u64>;

/// The contents of an empty map.
pub open spec fn no_guilds() -> Map<Seq<char>, u64> {
    Map::empty()
}

/// `dashmap::DashMap::new`: an empty map.
#[verifier::external_body]
fn new_guild_map() -> (created: GuildMap)
    ensures
        guild_map_contents(created) == no_guilds(),
{
    dashmap::DashMap::new()
}

/// `dashmap::DashMap::insert`: maps `key` to `value`, replacing any value
/// that `key` had, and returns that old value. The map is taken by `&mut`
/// here, though `insert` needs only `&`, so that the change is seen.
#[verifier::external_body]
fn guild_map_insert(map: &mut GuildMap, key: String, value: u64) -> (previous:
    Option<u64>)
    ensures
        guild_map_contents(*final(map)) == guild_map_contents(*old(map)).insert(key@, value),
        previous == (if guild_map_contents(*old(map)).dom().contains(key@) {
            Some(guild_map_contents(*old(map))[key@])
        } else {
            None
        }),
{
    map.insert(key, value)
}

/// A row of the whitelist table.
#[derive(Clone, Debug)]
pub struct WhitelistedGuild {
    /// The guild's name.
    pub guild_name: String,
    /// The guild's id.
    pub guild_id: u64,
}

/// The map that the rows give: each name to the id of the last row with
/// that name.
pub open spec fn rows_to_map(rows: Seq<WhitelistedGuild>) -> Map<Seq<char>, u64>
    decreases rows.len(),
{
    if rows.len() == 0 {
        Map::empty()
    } else {
        rows_to_map(rows.drop_last()).insert(rows.last().guild_name@, rows.last().guild_id)
    }
}

/// Builds the map of whitelisted guilds from the rows of the whitelist table.
pub fn whitelist_map(guilds: &Vec<WhitelistedGuild>) -> (map: GuildMap)
    ensures
        guild_map_contents(map) == rows_to_map(guilds@),
{
    let mut map = new_guild_map();
    let mut i: usize = 0;
    while i < guilds.len()
        invariant
            i <= guilds.len(),
            guild_map_contents(map) == rows_to_map(guilds@.take(i as int)),
        decreases guilds.len() - i,
    {
        let guild = &guilds[i];
        guild_map_insert(&mut map, guild.guild_name.clone(), guild.guild_id);
        assert(guilds@.take(i + 1).drop_last() =~= guilds@.take(i as int));
        i = i + 1;
    }
    assert(guilds@.take(guilds.len() as int) =~= guilds@);
    map
}

/// Each guild name in the map of the rows is the name of a row.
pub proof fn lemma_rows_to_map_domain(rows: Seq<WhitelistedGuild>, name: Seq<char>)
    ensures
        rows_to_map(rows).dom().contains(name) <==> exists|i: int|
            0 <= i < rows.len() && #[trigger] rows[i].guild_name@ == name,
    decreases rows.len(),
{
    if rows.len() > 0 {
        let init = rows.drop_last();
        lemma_rows_to_map_domain(init, name);
        if exists|i: int| 0 <= i < init.len() && #[trigger] init[i].guild_name@ == name {
            let i = choose|i: int| 0 <= i < init.len() && #[trigger] init[i].guild_name@ == name;
            assert(rows[i].guild_name@ == name);
        }
        if exists|i: int| 0 <= i < rows.len() && #[trigger] rows[i].guild_name@ == name {
            let i = choose|i: int| 0 <= i < rows.len() && #[trigger] rows[i].guild_name@ == name;
            if i < rows.len() - 1 {
                assert(init[i].guild_name@ == name);
            }
        }
    }
}

/// A guild name maps to the id of the last row with that name.
pub proof fn lemma_rows_to_map_last_row_wins(rows: Seq<WhitelistedGuild>, i: int)
    requires
        0 <= i < rows.len(),
        forall|j: int| i < j < rows.len() ==> #[trigger] rows[j].guild_name@ != rows[i].guild_name@,
    ensures
        rows_to_map(rows).dom().contains(rows[i].guild_name@),
        rows_to_map(rows)[rows[i].guild_name@] == rows[i].guild_id,
    decreases rows.len(),
{
    if i < rows.len() - 1 {
        let init = rows.drop_last();
        assert forall|j: int| i < j < init.len() implies #[trigger] init[j].guild_name@
            != init[i].guild_name@ by {
            assert(init[j] == rows[j]);
        }
        lemma_rows_to_map_last_row_wins(init, i);
        assert(rows[rows.len() - 1].guild_name@ != rows[i].guild_name@);
    }
}

/// The environment variable that holds the database credentials.
pub const CREDENTIALS_VARIABLE: &'static str = "PGSQL_CREDENTIALS_GUILDS";

/// The query that reads the whitelist table.
pub const WHITELIST_QUERY: &'static str = "SELECT * FROM public.\"Whitelist\"";

/// Why the whitelisted guilds could not be fetched.
#[derive(Debug)]
pub struct WhitelistError {
    /// What went wrong; the same text is logged as an error.
    pub message: String,
}

/// What the fetch of the whitelisted guilds learns from the outside.
#[derive(Debug)]
pub enum FetchEvent {
    /// The credentials variable was read, or the error's text.
    Credentials(Result<String, String>),
    /// The connection pool was opened, or the error's debug text.
    Connected(Result<(), String>),
    /// The query's rows, or the error's debug text.
    Rows(Result<Vec<WhitelistedGuild>, String>),
}

/// What the fetch of the whitelisted guilds does next.
#[derive(Debug)]
pub enum FetchStep {
    /// Read the environment variable `variable`.
    ReadCredentials { variable: String },
    /// Open a Postgres connection pool with `credentials`.
    Connect { credentials: String },
    /// Run `sql` on the pool.
    Query { sql: String },
    /// Answer with the map of whitelisted guilds, or the error.
    Finished(Result<GuildMap, WhitelistError>),
}

/// The message when the credentials cannot be read.
pub open spec fn credentials_message(error: Seq<char>) -> Seq<char> {
    "failed to get database credentials; error: "@ + error
}

/// The message when the pool cannot be opened.
pub open spec fn connect_message(error: Seq<char>) -> Seq<char> {
    "failed to connect to postgres database pool; error: `"@ + error + "`"@
}

/// The message when the query fails.
pub open spec fn query_message(error: Seq<char>) -> Seq<char> {
    "failed to execute sql query; error `"@ + error + "`"@
}

/// The first step of the fetch: read the credentials.
pub fn exec_future_start() -> (step: FetchStep)
    ensures
        step matches FetchStep::ReadCredentials { variable } && variable@
            == "PGSQL_CREDENTIALS_GUILDS"@,
{
    proof {
        reveal_strlit("PGSQL_CREDENTIALS_GUILDS");
    }
    FetchStep::ReadCredentials { variable: String::from_str(CREDENTIALS_VARIABLE) }
}

/// The step of the fetch after `event`: on success the next stage, on
/// failure the error with its message.
pub fn exec_future_step(event: FetchEvent) -> (step: FetchStep)
    ensures
        match event {
            FetchEvent::Credentials(Ok(c)) => step matches FetchStep::Connect { credentials }
                && credentials@ == c@,
            FetchEvent::Credentials(Err(e)) => step matches FetchStep::Finished(Err(err))
                && err.message@ == credentials_message(e@),
            FetchEvent::Connected(Ok(())) => step matches FetchStep::Query { sql } && sql@
                == "SELECT * FROM public.\"Whitelist\""@,
            FetchEvent::Connected(Err(e)) => step matches FetchStep::Finished(Err(err))
                && err.message@ == connect_message(e@),
            FetchEvent::Rows(Ok(rows)) => step matches FetchStep::Finished(Ok(map))
                && guild_map_contents(map) == rows_to_map(rows@),
            FetchEvent::Rows(Err(e)) => step matches FetchStep::Finished(Err(err))
                && err.message@ == query_message(e@),
        },
{
    proof {
        reveal_strlit("SELECT * FROM public.\"Whitelist\"");
        reveal_strlit("failed to get database credentials; error: ");
        reveal_strlit("failed to connect to postgres database pool; error: `");
        reveal_strlit("failed to execute sql query; error `");
        reveal_strlit("`");
    }
    match event {
        FetchEvent::Credentials(Ok(credentials)) => FetchStep::Connect { credentials },
        FetchEvent::Credentials(Err(e)) => {
            let mut message = String::from_str("failed to get database credentials; error: ");
            message.append(e.as_str());
            FetchStep::Finished(Err(WhitelistError { message }))
        },
        FetchEvent::Connected(Ok(())) => FetchStep::Query { sql: String::from_str(WHITELIST_QUERY) },
        FetchEvent::Connected(Err(e)) => {
            let mut message = String::from_str(
                "failed to connect to postgres database pool; error: `",
            );
            message.append(e.as_str());
            message.append("`");
            FetchStep::Finished(Err(WhitelistError { message }))
        },
        FetchEvent::Rows(Ok(rows)) => FetchStep::Finished(Ok(whitelist_map(&rows))),
        FetchEvent::Rows(Err(e)) => {
            let mut message = String::from_str("failed to execute sql query; error `");
            message.append(e.as_str());
            message.append("`");
            FetchStep::Finished(Err(WhitelistError { message }))
        },
    }
}

/// What a poll of `GetWhitelistedGuilds` does.
#[derive(Debug)]
pub enum WhitelistPoll {
    /// Start the fetch, then poll it.
    Launch,
    /// Poll the fetch that was started before.
    Resume,
    /// Answer with this error at once.
    Failed(WhitelistError),
}

/// Whether a poll from a state with the given `pending` starts the fetch.
pub open spec fn poll_launches(pending: bool) -> bool {
    !pending
}

/// How many of `k` polls in a row, from a state with the given `pending`,
/// start the fetch; after any poll the fetch is pending.
pub open spec fn launches_in_polls(pending: bool, k: nat) -> nat
    decreases k,
{
    if k == 0 {
        0
    } else {
        (if poll_launches(pending) {
            1nat
        } else {
            0nat
        }) + launches_in_polls(true, (k - 1) as nat)
    }
}

/// Polling a new `GetWhitelistedGuilds` `k >= 1` times starts the fetch
/// exactly once, on the first poll; once started, no later poll starts it
/// again.
pub proof fn lemma_polls_start_fetch_once(k: nat)
    requires
        k >= 1,
    ensures
        launches_in_polls(false, k) == 1,
        poll_launches(false),
        launches_in_polls(true, k) == 0,
{
    lemma_started_fetch_never_restarts((k - 1) as nat);
    lemma_started_fetch_never_restarts(k);
}

/// Polls of a started fetch never start it again.
pub proof fn lemma_started_fetch_never_restarts(k: nat)
    ensures
        launches_in_polls(true, k) == 0,
    decreases k,
{
    if k > 0 {
        lemma_started_fetch_never_restarts((k - 1) as nat);
    }
}

/// The future that gets the whitelisted guilds of the bot: whether its
/// fetch has been started.
#[derive(Debug)]
pub struct GetWhitelistedGuilds {
    pending: bool,
}

impl Default for GetWhitelistedGuilds {
    /// A future whose fetch has not started.
    fn default() -> (f: GetWhitelistedGuilds)
        ensures
            !f.is_pending(),
    {
        GetWhitelistedGuilds { pending: false }
    }
}

impl GetWhitelistedGuilds {
    /// Whether the fetch has been started.
    pub closed spec fn is_pending(&self) -> bool {
        self.pending
    }

    /// Starts the fetch; this cannot fail.
    fn start(&mut self) -> (r: Result<(), WhitelistError>)
        ensures
            r is Ok,
            final(self).is_pending(),
    {
        self.pending = true;
        Ok(())
    }

    /// Polls the future: the fetch is started on the first poll and resumed
    /// on every later one, so it is started once.
    pub fn poll(&mut self) -> (action: WhitelistPoll)
        ensures
            final(self).is_pending(),
            (action is Launch) == poll_launches(old(self).is_pending()),
            !poll_launches(old(self).is_pending()) ==> action is Resume,
    {
        let ghost was_pending = self.pending;
        let mut launched = false;
        loop
            invariant
                was_pending == old(self).pending,
                launched == (!was_pending && self.pending),
                was_pending ==> self.pending,
            decreases (if self.pending { 0int } else { 1int }),
        {
            if self.pending {
                return if launched {
                    WhitelistPoll::Launch
                } else {
                    WhitelistPoll::Resume
                };
            }
            match self.start() {
                Err(error) => {
                    return WhitelistPoll::Failed(error);
                },
                Ok(()) => {
                    launched = true;
                },
            }
        }
    }
}

} // verus!
