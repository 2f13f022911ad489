//! The bot's configuration: the game it drives, its chat identity and the
//! tables of warps and hats.
use vstd::prelude::*;
use vstd::string::*;
use crate::catalog::{get_hat_types, get_warp_locations, Lookup, from_pairs, hat_pairs, warp_pairs, keys_of};
use crate::text::joined;

verus! {

/// What the bot needs to know about its game, its channel and its tables.
#[derive(Clone)]
pub struct BotConfig {
    pub game_name: String,
    pub game_executable: String,
    pub game_id: i64,
    pub hat_types: Lookup,
    pub tp_locations: Lookup,
    pub twitch_bot_username: String,
    pub twitch_bot_token: String,
    pub player_token: String,
    pub twitch_channel_name: String,
    pub valid_hat_types: String,
    pub valid_tp_locations: String,
}

/// The configuration for the bot's game and channel, with the two secrets
/// (the chat token and the player token) that the environment provides.
pub fn init_config(twitch_bot_token: String, player_token: String) -> (r: BotConfig)
    ensures
        r.game_name@ == "Roblox"@,
        r.game_executable@ == "RobloxPlayerBeta.exe"@,
        r.game_id == 7_363_647_365i64,
        r.twitch_channel_name@ == "sbfcam"@,
        r.twitch_bot_username@ == "sbfcamBOT"@,
        r.tp_locations@ == from_pairs(warp_pairs()),
        r.valid_tp_locations@ == joined(keys_of(r.tp_locations@), ", "@),
        r.hat_types@ == from_pairs(hat_pairs()),
        r.valid_hat_types@ == joined(keys_of(r.hat_types@), ", "@),
        r.twitch_bot_token@ == twitch_bot_token@,
        r.player_token@ == player_token@,
{
    let (tp_locations, valid_tp_locations) = get_warp_locations();
    let (hat_types, valid_hat_types) = get_hat_types();
    BotConfig {
        game_name: String::from_str("Roblox"),
        game_executable: String::from_str("RobloxPlayerBeta.exe"),
        game_id: 7_363_647_365,
        hat_types,
        tp_locations,
        twitch_bot_username: String::from_str("sbfcamBOT"),
        twitch_bot_token,
        player_token,
        twitch_channel_name: String::from_str("sbfcam"),
        valid_hat_types,
        valid_tp_locations,
    }
}

} // verus!
