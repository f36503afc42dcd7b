//! Who may control playback: the voice-channel rule.

use vstd::prelude::*;

verus! {

/// What `check_voice_channel` answers, given whether the server is in the
/// cache and the voice channels of the user and of the bot.
pub open spec fn voice_check(
    guild_cached: bool,
    user_channel: Option<u64>,
    bot_channel: Option<u64>,
) -> Result<u64, Seq<char>> {
    if !guild_cached {
        Err("❌ Server cache not found."@)
    } else {
        match user_channel {
            None => Err("⚠️ You must be in a voice channel to use this command."@),
            Some(u) => match bot_channel {
                Some(b) if b != u => Err(
                    "⚠️ You must be in the same voice channel as the bot to use this command."@,
                ),
                _ => Ok(u),
            },
        }
    }
}

/// The voice channel a command may act on: the user's, provided the user
/// is in one and the bot is in no other; otherwise the message to show.
pub fn check_voice_channel(
    guild_cached: bool,
    user_channel: Option<u64>,
    bot_channel: Option<u64>,
) -> (r: Result<u64, &'static str>)
    ensures
        match (r, voice_check(guild_cached, user_channel, bot_channel)) {
            (Ok(a), Ok(b)) => a == b,
            (Err(a), Err(b)) => a@ == b,
            _ => false,
        },
{
    if !guild_cached {
        return Err("❌ Server cache not found.");
    }
    let user = match user_channel {
        Some(c) => c,
        None => return Err("⚠️ You must be in a voice channel to use this command."),
    };
    if let Some(bot) = bot_channel {
        if user != bot {
            return Err("⚠️ You must be in the same voice channel as the bot to use this command.");
        }
    }
    Ok(user)
}

/// A command is let through only for a user in a voice channel, and, when
/// the bot is in a voice channel, only for a user in that same channel.
pub proof fn law_voice_check_admits_only_same_channel(
    guild_cached: bool,
    user_channel: Option<u64>,
    bot_channel: Option<u64>,
)
    ensures
        voice_check(guild_cached, user_channel, bot_channel) is Ok <==> guild_cached
            && user_channel is Some && (bot_channel is None || bot_channel == user_channel),
        voice_check(guild_cached, user_channel, bot_channel) matches Ok(c) ==> user_channel
            == Some(c),
{
}

} // verus!
