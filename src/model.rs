//! The association record between a Discord message and a trade hash.
use vstd::prelude::*;

verus! {

/// The digit character for a value below ten.
pub open spec fn digit_char(d: nat) -> char {
    "0123456789"@[d as int]
}

/// The decimal notation of a natural number, without leading zeros.
pub open spec fn decimal(n: nat) -> Seq<char>
    decreases n,
{
    if n < 10 {
        seq![digit_char(n)]
    } else {
        decimal(n / 10).push(digit_char(n % 10))
    }
}

/// The deep link to a message: `https://discord.com/channels/{guild}/{channel}/{message}`.
pub open spec fn message_link(guild_id: u64, channel_id: u64, message_id: u64) -> Seq<char> {
    "https://discord.com/channels/"@ + decimal(guild_id as nat) + "/"@ + decimal(channel_id as nat)
        + "/"@ + decimal(message_id as nat)
}

/// The one-character string of a decimal digit.
fn digit_str(d: u64) -> (r: &'static str)
    requires
        d < 10,
    ensures
        r@ == seq![digit_char(d as nat)],
{
    let digits: &'static str = "0123456789";
    proof {
        reveal_strlit("0123456789");
    }
    assert(digits.is_ascii());
    let r = digits.substring_ascii(d as usize, d as usize + 1);
    assert(r@ =~= seq![digit_char(d as nat)]);
    r
}

/// Appends the decimal notation of `n` to `s`.
fn push_decimal(s: &mut String, n: u64)
    ensures
        final(s)@ == old(s)@ + decimal(n as nat),
    decreases n,
{
    if n >= 10 {
        push_decimal(s, n / 10);
    }
    s.append(digit_str(n % 10));
    proof {
        if n >= 10 {
            assert(decimal(n as nat) == decimal((n / 10) as nat).push(digit_char((n % 10) as nat)));
        }
    }
    assert(s@ =~= old(s)@ + decimal(n as nat));
}

/// What a record holds, with the trade hash as a character sequence.
pub struct MessageRecord {
    pub channel_id: u64,
    pub guild_id: u64,
    pub message_id: u64,
    pub trade_hash: Seq<char>,
}

/// A Discord message that carries a trade, keyed by the trade's hash.
///
/// The identifiers are taken as they come: any `u64` is accepted, as the
/// platform's snowflakes need no range check to form a link.
#[derive(Clone, Debug)]
pub struct DiscordMessage {
    pub channel_id: u64,
    pub guild_id: u64,
    pub message_id: u64,
    pub trade_hash: String,
}

impl View for DiscordMessage {
    type V = MessageRecord;

    open spec fn view(&self) -> MessageRecord {
        MessageRecord {
            channel_id: self.channel_id,
            guild_id: self.guild_id,
            message_id: self.message_id,
            trade_hash: self.trade_hash@,
        }
    }
}

impl DiscordMessage {
    /// A record of the four values, unchanged.
    pub fn new(channel_id: u64, guild_id: u64, message_id: u64, trade_hash: String) -> (r: Self)
        ensures
            r.channel_id == channel_id,
            r.guild_id == guild_id,
            r.message_id == message_id,
            r.trade_hash@ == trade_hash@,
    {
        DiscordMessage { channel_id, guild_id, message_id, trade_hash }
    }

    /// The deep link to this message; it depends on the three identifiers alone.
    pub fn construct_message_link(&self) -> (r: String)
        ensures
            r@ == message_link(self.guild_id, self.channel_id, self.message_id),
    {
        let mut link = "https://discord.com/channels/".to_owned();
        push_decimal(&mut link, self.guild_id);
        link.append("/");
        push_decimal(&mut link, self.channel_id);
        link.append("/");
        push_decimal(&mut link, self.message_id);
        link
    }

    /// A copy of the record.
    pub fn duplicate(&self) -> (r: Self)
        ensures
            r@ == self@,
    {
        DiscordMessage {
            channel_id: self.channel_id,
            guild_id: self.guild_id,
            message_id: self.message_id,
            trade_hash: self.trade_hash.clone(),
        }
    }
}

} // verus!
