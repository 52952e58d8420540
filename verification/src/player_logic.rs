//! Player profiles: opening one on first use, and renaming.
use vstd::prelude::*;
use vstd::string::*;
use crate::errors::GameError;
use crate::identity::Identity;
use crate::state::PlayerProfile;

verus! {

/// The base58 text of a 32-byte identity.
pub uninterp spec fn base58_text(bytes: Seq<u8>) -> Seq<char>;

/// Calls `to_string` on the `anchor_lang::prelude::Pubkey` made of the 32
/// bytes, which writes the key in base58. The text is a function of the
/// bytes alone; the contract names it `base58_text` and states nothing else
/// about it.
#[verifier::external_body]
pub(crate) fn base58_of(bytes: &[u8; 32]) -> (text: String)
    ensures
        text@ == base58_text(bytes@),
{
    anchor_lang::prelude::Pubkey::new_from_array(*bytes).to_string()
}

/// Whether a default name can be cut from this text: it is ASCII and has at
/// least four characters.
pub open spec fn name_suffix_usable(text: Seq<char>) -> bool {
    text.len() >= 4 && vstd::utf8::is_ascii_chars(text)
}

/// The default name for a player whose identity is written `text`: the word
/// "Player" and the last four characters of the text.
pub open spec fn default_name_of(text: Seq<char>) -> Seq<char> {
    "Player"@ + text.subrange(text.len() - 4, text.len() as int)
}

/// The name a profile has once it was opened for `player`: the default name,
/// or the name it had where no default name can be cut.
pub open spec fn opened_name(old_name: Seq<char>, player: Identity) -> Seq<char> {
    let text = base58_text(player.bytes@);
    if name_suffix_usable(text) {
        default_name_of(text)
    } else {
        old_name
    }
}

/// The profile `before` once it was opened for `player`, with the name
/// `name`: an unused profile gets its owner, name, creation time and bump;
/// a used one stays as it is.
pub open spec fn opened_profile(
    before: PlayerProfile,
    name: String,
    player: Identity,
    bump: u8,
    now: i64,
) -> PlayerProfile {
    if before.player.is_unset() {
        PlayerProfile { player, name, created_at: now, bump, ..before }
    } else {
        before
    }
}

/// Whether `after` is `before` once it was opened for `player` at time `now`.
pub open spec fn opened_for(
    before: PlayerProfile,
    after: PlayerProfile,
    player: Identity,
    bump: u8,
    now: i64,
) -> bool {
    &&& after == opened_profile(before, after.name, player, bump, now)
    &&& before.player.is_unset() ==> after.name@ == opened_name(before.name@, player)
}

/// The default name for a player whose identity is written `encoded`.
pub fn default_player_name(encoded: &str) -> (name: String)
    requires
        encoded.is_ascii(),
        encoded@.len() >= 4,
    ensures
        name@ == default_name_of(encoded@),
{
    let n: usize = encoded.unicode_len();
    let suffix = encoded.substring_ascii(n - 4, n);
    String::from_str("Player").concat(suffix)
}

/// Opens a profile on its first use: an unused profile (one without an
/// owner) gets `player` as its owner, the default name, `now` as its
/// creation time, and `bump`. A profile that has an owner is left alone.
/// Where the identity's text is too short or not ASCII, the name is left as
/// it was.
pub fn initialize_player_profile_if_needed(
    player_profile: &mut PlayerProfile,
    player: &Identity,
    bump: u8,
    now: i64,
) -> (result: Result<(), GameError>)
    ensures
        result is Ok,
        opened_for(*old(player_profile), *final(player_profile), *player, bump, now),
{
    if player_profile.player.check_unset() {
        let player_str = base58_of(&player.bytes);
        if player_str.as_str().is_ascii() && player_str.as_str().unicode_len() >= 4 {
            player_profile.name = default_player_name(player_str.as_str());
        }
        player_profile.player = *player;
        player_profile.created_at = now;
        player_profile.bump = bump;
    }
    Ok(())
}

/// The profile to rename and who asks for it.
pub struct UpdatePlayerName {
    pub player_profile: PlayerProfile,
    pub player: Identity,
}

/// Gives the profile a new name. Only the profile's owner may do so.
pub fn update_player_name(ctx: &mut UpdatePlayerName, new_name: String) -> (result: Result<
    (),
    GameError,
>)
    requires
        vstd::utf8::encode_utf8(new_name@).len() <= 32,
    ensures
        old(ctx).player == old(ctx).player_profile.player ==> result == Ok::<(), GameError>(())
            && *final(ctx) == (UpdatePlayerName {
            player_profile: PlayerProfile { name: new_name, ..old(ctx).player_profile },
            ..*old(ctx)
        }),
        old(ctx).player != old(ctx).player_profile.player ==> result == Err::<(), GameError>(
            GameError::Unauthorized,
        ) && *final(ctx) == *old(ctx),
{
    if ctx.player != ctx.player_profile.player {
        return Err(GameError::Unauthorized);
    }
    ctx.player_profile.name = new_name;
    Ok(())
}

} // verus!
