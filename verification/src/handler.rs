//! Handlers for individual gateway events: each returns the line that the
//! bot logs for the event.

use vstd::prelude::*;

use crate::text::{all_digits, decimal, digits_value, lemma_decimal_reads_back, u64_to_decimal};

verus! {

/// What the bot reads of the `READY` payload.
#[derive(Debug)]
pub struct Ready {
    /// The bot user's name.
    pub user_name: String,
    /// The bot user's discriminator.
    pub discriminator: u16,
    /// The bot user's snowflake.
    pub user_id: u64,
    /// The version of the Discord API in use.
    pub version: u64,
}

/// A shard that starts identifying with the gateway.
#[derive(Debug)]
pub struct Identifying {
    /// The shard's number.
    pub shard_id: u64,
    /// The number of shards.
    pub shard_total: u64,
}

/// The line logged when the bot is ready.
pub open spec fn ready_line(user_name: Seq<char>, discriminator: nat, user_id: nat, version: nat) -> Seq<char> {
    user_name + "#"@ + decimal(discriminator) + " [id: "@ + decimal(user_id)
        + "] has successfully startup; using discord api v"@ + decimal(version)
}

/// The line logged when a shard identifies.
pub open spec fn identifying_line(shard_id: nat, shard_total: nat) -> Seq<char> {
    "shard "@ + decimal(shard_id) + " out of "@ + decimal(shard_total)
        + " is identifying with the discord gateway"@
}

/// The shard-identifying line names the shard and the number of shards, each
/// as a run of decimal digits that reads back as that number.
pub proof fn lemma_identifying_line_reads_back(shard_id: nat, shard_total: nat)
    ensures
        exists|id_digits: Seq<char>, total_digits: Seq<char>|
            #![trigger digits_value(id_digits), digits_value(total_digits)]
            id_digits.len() > 0 && all_digits(id_digits) && digits_value(id_digits) == shard_id
                && total_digits.len() > 0 && all_digits(total_digits) && digits_value(total_digits)
                == shard_total && identifying_line(shard_id, shard_total) == "shard "@ + id_digits
                + " out of "@ + total_digits + " is identifying with the discord gateway"@,
{
    lemma_decimal_reads_back(shard_id);
    lemma_decimal_reads_back(shard_total);
    let a = decimal(shard_id);
    let b = decimal(shard_total);
    assert(digits_value(a) == shard_id && digits_value(b) == shard_total);
}

/// The ready line names the user, and the discriminator, the user id and the
/// API version each as a run of decimal digits that reads back as that number.
pub proof fn lemma_ready_line_reads_back(user_name: Seq<char>, discriminator: nat, user_id: nat, version: nat)
    ensures
        exists|d: Seq<char>, i: Seq<char>, v: Seq<char>|
            #![trigger digits_value(d), digits_value(i), digits_value(v)]
            all_digits(d) && digits_value(d) == discriminator && d.len() > 0 && all_digits(i)
                && digits_value(i) == user_id && i.len() > 0 && all_digits(v) && digits_value(v)
                == version && v.len() > 0 && ready_line(user_name, discriminator, user_id, version)
                == user_name + "#"@ + d + " [id: "@ + i
                + "] has successfully startup; using discord api v"@ + v,
{
    lemma_decimal_reads_back(discriminator);
    lemma_decimal_reads_back(user_id);
    lemma_decimal_reads_back(version);
    let d = decimal(discriminator);
    let i = decimal(user_id);
    let v = decimal(version);
    assert(digits_value(d) == discriminator && digits_value(i) == user_id && digits_value(v)
        == version);
}

/// Handlers for individual events.
#[derive(Clone, Copy, Debug)]
pub struct EventHandler;

impl EventHandler {
    /// Handles `READY`: the informational line that announces the start-up.
    pub fn ready(payload: &Ready) -> (line: String)
        ensures
            line@ == ready_line(
                payload.user_name@,
                payload.discriminator as nat,
                payload.user_id as nat,
                payload.version as nat,
            ),
    {
        proof {
            reveal_strlit("#");
            reveal_strlit(" [id: ");
            reveal_strlit("] has successfully startup; using discord api v");
        }
        let mut line = payload.user_name.clone();
        line.append("#");
        let discriminator = u64_to_decimal(payload.discriminator as u64);
        line.append(discriminator.as_str());
        line.append(" [id: ");
        let id = u64_to_decimal(payload.user_id);
        line.append(id.as_str());
        line.append("] has successfully startup; using discord api v");
        let version = u64_to_decimal(payload.version);
        line.append(version.as_str());
        line
    }

    /// Handles a shard's identifying: the verbose line that reports it.
    pub fn shard_identifying(payload: &Identifying) -> (line: String)
        ensures
            line@ == identifying_line(payload.shard_id as nat, payload.shard_total as nat),
    {
        proof {
            reveal_strlit("shard ");
            reveal_strlit(" out of ");
            reveal_strlit(" is identifying with the discord gateway");
        }
        let mut line = String::from_str("shard ");
        let id = u64_to_decimal(payload.shard_id);
        line.append(id.as_str());
        line.append(" out of ");
        let total = u64_to_decimal(payload.shard_total);
        line.append(total.as_str());
        line.append(" is identifying with the discord gateway");
        line
    }
}

} // verus!
