//! The tokens that the server holds, and the file that keeps them between runs.
use vstd::prelude::*;
use vstd::slice::{slice_subrange, slice_to_vec};

use crate::cipher;
use crate::offset_date_time::OffsetDateTime;
use crate::text;
use crate::timestamp;
use crate::timestamp::Timestamp;

verus! {

/// A token is handed out only while it stays valid for longer than this.
pub const FRESHNESS_MARGIN_SECONDS: u64 = 60;

/// The tokens of one provider.
pub struct TokenState {
    /// The initial acquisition timestamp
    pub acquired_at: OffsetDateTime,
    /// The current expiration of the access token
    pub expires_at: OffsetDateTime,
    pub access_token: String,
    pub refresh_token: String,
}

/// What the state file keeps.
pub struct AppStateOnDisk {
    pub youtube: Option<TokenState>,
    pub spotify: Option<TokenState>,
}

/// The tokens, and the key of the state file.
pub struct AppState {
    pub key: [u8; 32],
    pub data: AppStateOnDisk,
}

/// What a request for a token finds.
pub enum TokenLookup<'a> {
    /// No token is held.
    Absent,
    /// The access token, which stays valid for a while.
    Fresh(String),
    /// The token is about to expire, or has expired: it has to be refreshed.
    Stale(&'a TokenState),
}

/// Why no token could be had.
pub enum GetTokenError<E> {
    Refresh(E),
    Save(E),
}

/// What a state file holds.
pub enum LoadedState {
    /// There is no file yet: the server starts without tokens.
    Empty(AppState),
    /// The text of the state, which was sealed in the file.
    Plaintext(Vec<u8>),
}

#[derive(Clone, Copy, Debug, PartialEq, Eq, Structural)]
pub enum StateFileError {
    /// The file was not sealed with this key, or is damaged.
    Decrypt,
}

/// The state has no place for tokens of this provider.
#[derive(Clone, Copy, Debug, PartialEq, Eq, Structural)]
pub struct UnknownProvider;

/// Whether a token that expires at one moment may be handed out at another.
pub open spec fn fresh(expires_at: int, now: int) -> bool {
    expires_at > now + FRESHNESS_MARGIN_SECONDS * timestamp::NANOSECONDS_PER_SECOND
}

/// What a request for a token finds at a given moment.
pub open spec fn lookup_at(token: Option<TokenState>, now: int, found: TokenLookup) -> bool {
    match found {
        TokenLookup::Absent => token is None,
        TokenLookup::Fresh(access_token) => {
            &&& token is Some
            &&& fresh(token->0.expires_at@.moment(), now)
            &&& access_token@ == token->0.access_token@
        },
        TokenLookup::Stale(stale) => {
            &&& token == Some(*stale)
            &&& !fresh(stale.expires_at@.moment(), now)
        },
    }
}

/// The access token of the tokens of a provider.
pub open spec fn access_token_of(token: Option<TokenState>) -> Option<Seq<char>> {
    match token {
        Some(token) => Some(token.access_token@),
        None => None,
    }
}

/// The plaintext that a state file holds under a key: the file is a nonce
/// followed by the ciphertext.
pub open spec fn file_plaintext(key: Seq<u8>, file: Seq<u8>) -> Option<Seq<u8>> {
    if file.len() < cipher::NONCE_BYTES {
        None
    } else {
        cipher::opened(
            key,
            file.take(cipher::NONCE_BYTES as int),
            file.skip(cipher::NONCE_BYTES as int),
        )
    }
}

/// The file that a nonce and a plaintext make.
pub open spec fn file_bytes(key: Seq<u8>, nonce: Seq<u8>, plaintext: Seq<u8>) -> Seq<u8> {
    nonce + cipher::sealed(key, nonce, plaintext)
}

/// The file lengths that the cipher answers for.
pub open spec fn answered_file_length(length: nat) -> bool {
    length < cipher::NONCE_BYTES || cipher::answered_length(
        (length - cipher::NONCE_BYTES) as nat,
    )
}

/// What loading the state file gives: without a file an empty state, else what
/// the file holds under the key.
pub open spec fn load_result(
    key: [u8; 32],
    file: Option<Vec<u8>>,
    result: Result<LoadedState, StateFileError>,
) -> bool {
    match file {
        None => {
            &&& result is Ok
            &&& result->Ok_0 == LoadedState::Empty(
                AppState { key, data: AppStateOnDisk { youtube: None, spotify: None } },
            )
        },
        Some(file) => match file_plaintext(key@, file@) {
            Some(plaintext) => {
                &&& result is Ok
                &&& result->Ok_0 is Plaintext
                &&& result->Ok_0->Plaintext_0@ == plaintext
            },
            None => result == Err::<LoadedState, StateFileError>(StateFileError::Decrypt),
        },
    }
}

impl<E> GetTokenError<E> {
    /// What was being done when the error came up.
    pub fn context(&self) -> (text: &'static str)
        ensures
            text@ == match self {
                GetTokenError::Refresh(_) => "should refresh youtube token"@,
                GetTokenError::Save(_) => "saving new state to file"@,
            },
    {
        match self {
            GetTokenError::Refresh(_) => "should refresh youtube token",
            GetTokenError::Save(_) => "saving new state to file",
        }
    }
}

impl AppState {
    /// This state with other tokens for YouTube.
    pub open spec fn with_youtube(self, youtube: Option<TokenState>) -> AppState {
        AppState { data: AppStateOnDisk { youtube, ..self.data }, ..self }
    }

    /// This state with other tokens for Spotify.
    pub open spec fn with_spotify(self, spotify: Option<TokenState>) -> AppState {
        AppState { data: AppStateOnDisk { spotify, ..self.data }, ..self }
    }

    /// A state with the given tokens.
    pub fn new(key: [u8; 32], data: AppStateOnDisk) -> (result: AppState)
        ensures
            result.key == key,
            result.data == data,
    {
        AppState { key, data }
    }

    /// Holds new tokens for YouTube. The state has to be saved afterwards.
    pub fn insert_youtube_token(&mut self, token_state: TokenState)
        ensures
            *final(self) == old(self).with_youtube(Some(token_state)),
    {
        self.data.youtube = Some(token_state);
    }

    /// Holds new tokens for the provider of that name. The state has to be saved
    /// afterwards. A provider that the state has no place for changes nothing.
    pub fn insert_token(&mut self, provider: &str, token_state: TokenState) -> (result: Result<
        (),
        UnknownProvider,
    >)
        ensures
            *final(self) == if provider@ == "youtube"@ {
                old(self).with_youtube(Some(token_state))
            } else if provider@ == "spotify"@ {
                old(self).with_spotify(Some(token_state))
            } else {
                *old(self)
            },
            result is Ok <==> provider@ == "youtube"@ || provider@ == "spotify"@,
    {
        if text::same(provider, "youtube") {
            self.insert_youtube_token(token_state);
            Ok(())
        } else if text::same(provider, "spotify") {
            self.data.spotify = Some(token_state);
            Ok(())
        } else {
            Err(UnknownProvider)
        }
    }

    /// What a request for the YouTube token finds at the given moment.
    pub fn get_youtube_token_at(&self, now: &Timestamp) -> (found: TokenLookup<'_>)
        ensures
            lookup_at(self.data.youtube, now@, found),
    {
        match &self.data.youtube {
            None => TokenLookup::Absent,
            Some(youtube) => {
                if youtube.expires_at.is_after_by(now, FRESHNESS_MARGIN_SECONDS) {
                    TokenLookup::Fresh(youtube.access_token.clone())
                } else {
                    TokenLookup::Stale(youtube)
                }
            },
        }
    }

    /// What a request for the YouTube token finds now.
    pub fn get_youtube_token(&self) -> (found: TokenLookup<'_>)
        ensures
            exists|now: int|
                {
                    &&& timestamp::representable(now)
                    &&& timestamp::clock_shows(now)
                    &&& #[trigger] lookup_at(self.data.youtube, now, found)
                },
    {
        let now = Timestamp::now();
        let found = self.get_youtube_token_at(&now);
        assert(lookup_at(self.data.youtube, now@, found));
        found
    }

    /// Takes what came of refreshing the YouTube token: new tokens, or none if
    /// the provider no longer grants any. The state has to be saved afterwards.
    /// A refresh that failed leaves the state as it is.
    pub fn refreshed<E>(&mut self, outcome: Result<Option<TokenState>, E>) -> (result: Result<
        (),
        GetTokenError<E>,
    >)
        ensures
            match outcome {
                Ok(youtube) => {
                    &&& result is Ok
                    &&& *final(self) == old(self).with_youtube(youtube)
                },
                Err(error) => {
                    &&& result == Err::<(), GetTokenError<E>>(GetTokenError::Refresh(error))
                    &&& *final(self) == *old(self)
                },
            },
    {
        match outcome {
            Ok(youtube) => {
                self.data.youtube = youtube;
                Ok(())
            },
            Err(error) => Err(GetTokenError::Refresh(error)),
        }
    }

    /// Answers the request once the refreshed state has been saved, or could
    /// not be.
    pub fn saved<E>(&self, outcome: Result<(), E>) -> (result: Result<
        Option<String>,
        GetTokenError<E>,
    >)
        ensures
            match outcome {
                Ok(_) => {
                    &&& result is Ok
                    &&& text::optional_text(result->Ok_0) == access_token_of(
                        self.data.youtube,
                    )
                },
                Err(error) => {
                    result == Err::<Option<String>, GetTokenError<E>>(GetTokenError::Save(error))
                },
            },
    {
        match outcome {
            Ok(_) => match &self.data.youtube {
                Some(youtube) => Ok(Some(youtube.access_token.clone())),
                None => Ok(None),
            },
            Err(error) => Err(GetTokenError::Save(error)),
        }
    }

    /// The bytes of the state file for a plaintext: a nonce that was drawn for
    /// this file alone, then the ciphertext.
    pub fn save_to_disk(&self, plaintext: &[u8]) -> (file: Vec<u8>)
        requires
            plaintext@.len() <= cipher::PLAINTEXT_MAX_BYTES,
        ensures
            exists|nonce: Seq<u8>|
                {
                    &&& nonce.len() == cipher::NONCE_BYTES
                    &&& cipher::nonce_drawn(nonce)
                    &&& file@ == #[trigger] file_bytes(self.key@, nonce, plaintext@)
                },
            cipher::nonce_drawn(file@.take(cipher::NONCE_BYTES as int)),
            file_plaintext(self.key@, file@) == Some(plaintext@),
            file@.len() == cipher::NONCE_BYTES + plaintext@.len() + cipher::TAG_BYTES,
            answered_file_length(file@.len()),
    {
        let nonce = cipher::random_nonce();
        proof {
            cipher::lemma_nonce_drawn(nonce);
        }
        let file = seal_file(&self.key, &nonce, plaintext);
        assert(file@.take(cipher::NONCE_BYTES as int) == nonce@);
        file
    }

    /// What the state file holds. Without a file the state is empty; a file that
    /// does not open under the key is an error.
    pub fn load_from_disk(key: [u8; 32], file: Option<Vec<u8>>) -> (result: Result<
        LoadedState,
        StateFileError,
    >)
        requires
            file is Some ==> answered_file_length(file->0@.len()),
        ensures
            load_result(key, file, result),
            file is Some && file->0@.len() < cipher::NONCE_BYTES + cipher::TAG_BYTES
                ==> result is Err,
    {
        let file = match file {
            None => {
                return Ok(
                    LoadedState::Empty(
                        AppState { key, data: AppStateOnDisk { youtube: None, spotify: None } },
                    ),
                );
            },
            Some(file) => file,
        };
        if file.len() < cipher::NONCE_BYTES {
            return Err(StateFileError::Decrypt);
        }
        let nonce = slice_subrange(file.as_slice(), 0, cipher::NONCE_BYTES);
        let ciphertext = slice_subrange(file.as_slice(), cipher::NONCE_BYTES, file.len());
        assert(nonce@ == file@.take(cipher::NONCE_BYTES as int));
        assert(ciphertext@ == file@.skip(cipher::NONCE_BYTES as int));
        match cipher::decrypt(&key, nonce, ciphertext) {
            Ok(plaintext) => Ok(LoadedState::Plaintext(plaintext)),
            Err(_) => Err(StateFileError::Decrypt),
        }
    }
}

/// The bytes of the state file for a nonce and a plaintext.
pub fn seal_file(key: &[u8; 32], nonce: &[u8; 12], plaintext: &[u8]) -> (file: Vec<u8>)
    requires
        plaintext@.len() <= cipher::PLAINTEXT_MAX_BYTES,
    ensures
        file@ == file_bytes(key@, nonce@, plaintext@),
        file_plaintext(key@, file@) == Some(plaintext@),
        file@.len() == cipher::NONCE_BYTES + plaintext@.len() + cipher::TAG_BYTES,
        answered_file_length(file@.len()),
{
    let mut ciphertext = cipher::encrypt(key, nonce.as_slice(), plaintext).expect(
        "plaintext should not be too long",
    );
    let mut file = slice_to_vec(nonce.as_slice());
    file.append(&mut ciphertext);
    assert(file@.take(cipher::NONCE_BYTES as int) == nonce@);
    assert(file@.skip(cipher::NONCE_BYTES as int) == cipher::sealed(key@, nonce@, plaintext@));
    file
}

/// What was inserted is what a later request finds, for as long as it is fresh.
pub proof fn law_inserted_token_is_found(
    before: AppState,
    token: TokenState,
    now: int,
    found: TokenLookup,
)
    requires
        fresh(token.expires_at@.moment(), now),
        lookup_at(before.with_youtube(Some(token)).data.youtube, now, found),
    ensures
        found is Fresh,
        found->Fresh_0@ == token.access_token@,
{
}

/// Each lookup has one kind of answer: nothing without a token, the access token
/// while it is fresh, and a refresh in all other cases.
pub proof fn law_lookup_is_decided(token: Option<TokenState>, now: int, found: TokenLookup)
    requires
        lookup_at(token, now, found),
    ensures
        found is Absent <==> token is None,
        found is Fresh <==> token is Some && fresh(token->0.expires_at@.moment(), now),
        found is Stale <==> token is Some && !fresh(token->0.expires_at@.moment(), now),
{
}

/// A token that is handed out stays valid for more than the margin.
pub proof fn law_handed_out_token_outlives_margin(
    token: Option<TokenState>,
    now: int,
    found: TokenLookup,
)
    requires
        lookup_at(token, now, found),
        found is Fresh,
    ensures
        token is Some,
        token->0.expires_at@.moment() - now > FRESHNESS_MARGIN_SECONDS * timestamp::NANOSECONDS_PER_SECOND,
{
}

/// A token that has to be refreshed does not become fresh by waiting.
pub proof fn law_stale_token_stays_stale(token: TokenState, now: int, later: int)
    requires
        now <= later,
        !fresh(token.expires_at@.moment(), now),
    ensures
        !fresh(token.expires_at@.moment(), later),
{
}

/// New tokens for one provider leave those of the other, and the key, alone; of
/// two inserts for one provider the last one stands.
pub proof fn law_providers_are_independent(
    state: AppState,
    youtube: Option<TokenState>,
    spotify: Option<TokenState>,
    other: Option<TokenState>,
)
    ensures
        state.with_youtube(youtube).data.spotify == state.data.spotify,
        state.with_spotify(spotify).data.youtube == state.data.youtube,
        state.with_youtube(youtube).with_spotify(spotify) == state.with_spotify(
            spotify,
        ).with_youtube(youtube),
        state.with_youtube(other).with_youtube(youtube) == state.with_youtube(youtube),
        state.with_youtube(youtube).with_spotify(spotify).key == state.key,
{
}

/// A refreshed token is what the request that refreshed it is answered, and what
/// the next request finds while it is fresh, whether or not the state could be
/// saved.
pub proof fn law_refreshed_token_is_served(
    before: AppState,
    token: TokenState,
    now: int,
    next: TokenLookup,
)
    requires
        lookup_at(before.with_youtube(Some(token)).data.youtube, now, next),
    ensures
        access_token_of(before.with_youtube(Some(token)).data.youtube) == Some(token.access_token@),
        fresh(token.expires_at@.moment(), now) ==> next is Fresh && next->Fresh_0@ == token.access_token@,
{
}

/// When a refresh yields no tokens, the request is answered with none and the
/// next one finds none.
pub proof fn law_withdrawn_token_is_gone(before: AppState, now: int, next: TokenLookup)
    requires
        lookup_at(before.with_youtube(None).data.youtube, now, next),
    ensures
        access_token_of(before.with_youtube(None).data.youtube) is None,
        next is Absent,
{
}

/// Loading gives back what saving wrote, under the same key.
pub proof fn law_saved_file_loads(
    key: [u8; 32],
    plaintext: Seq<u8>,
    file: Vec<u8>,
    result: Result<LoadedState, StateFileError>,
)
    requires
        file_plaintext(key@, file@) == Some(plaintext),
        load_result(key, Some(file), result),
    ensures
        result is Ok,
        result->Ok_0 is Plaintext,
        result->Ok_0->Plaintext_0@ == plaintext,
{
}

/// A token is handed out exactly if more than a minute is left until it expires, and
/// it is its access token that is handed out. In particular no token that has
/// expired is. Any other token that is held is shown as it is, to be refreshed.
pub proof fn law_only_a_valid_token_is_handed_out(
    token: TokenState,
    now: int,
    found: TokenLookup,
)
    requires
        lookup_at(Some(token), now, found),
    ensures
        found is Fresh <==> token.expires_at@.moment() - now > 60_000_000_000,
        found is Fresh ==> found->Fresh_0@ == token.access_token@,
        token.expires_at@.moment() <= now ==> found !is Fresh,
        found !is Fresh ==> found is Stale && *found->Stale_0 == token,
{
}

/// What is found without a token does not depend on the moment.
pub proof fn law_no_token_is_absent_at_any_time(now: int, found: TokenLookup)
    requires
        lookup_at(None, now, found),
    ensures
        found is Absent,
{
}

/// Of two lookups of one token the later one hands it out only if the earlier one
/// did; and if both do, they hand out the same.
pub proof fn law_lookups_agree(
    token: Option<TokenState>,
    now: int,
    found: TokenLookup,
    later: int,
    found_later: TokenLookup,
)
    requires
        now <= later,
        lookup_at(token, now, found),
        lookup_at(token, later, found_later),
    ensures
        found_later is Fresh ==> found is Fresh && found->Fresh_0@ == found_later->Fresh_0@,
        found is Absent <==> found_later is Absent,
{
}

/// What is inserted for a provider is what the state then holds for it; the other
/// provider's tokens and the key are those from before.
pub proof fn law_inserted_token_is_held(state: AppState, token: Option<TokenState>)
    ensures
        state.with_youtube(token).data.youtube == token,
        state.with_youtube(token).data.spotify == state.data.spotify,
        state.with_youtube(token).key == state.key,
        state.with_spotify(token).data.spotify == token,
        state.with_spotify(token).data.youtube == state.data.youtube,
        state.with_spotify(token).key == state.key,
{
}

/// A request that refreshed the tokens is answered with the access token that is
/// now held, whatever else the tokens are, and with none if none are held.
pub proof fn law_answer_is_the_held_access_token(token: TokenState)
    ensures
        access_token_of(Some(token)) == Some(token.access_token@),
        access_token_of(None) is None,
{
}

/// A state is its key and its tokens: it remembers nothing else.
pub proof fn law_state_remembers_nothing_else(state: AppState, other: AppState)
    requires
        state.key == other.key,
        state.data.youtube == other.data.youtube,
        state.data.spotify == other.data.spotify,
    ensures
        state == other,
{
}

/// Without a file the server starts under every key: with that very key, and without
/// a token of either provider.
pub proof fn law_first_start_is_empty(
    key: [u8; 32],
    result: Result<LoadedState, StateFileError>,
)
    requires
        load_result(key, None, result),
    ensures
        result is Ok,
        result->Ok_0 is Empty,
        result->Ok_0->Empty_0.key == key,
        result->Ok_0->Empty_0.data.youtube is None,
        result->Ok_0->Empty_0.data.spotify is None,
{
}

/// With a file, loading succeeds exactly if the cipher opens what follows the first
/// twelve bytes, with these as the nonce; it gives what the cipher found, and else
/// the one error.
pub proof fn law_file_loads_as_the_cipher_opens_it(
    key: [u8; 32],
    file: Vec<u8>,
    result: Result<LoadedState, StateFileError>,
)
    requires
        load_result(key, Some(file), result),
    ensures
        file@.len() < 12 ==> result is Err,
        file@.len() >= 12 ==> {
            let opened = cipher::opened(
                key@,
                file@.subrange(0, 12),
                file@.subrange(12, file@.len() as int),
            );
            &&& result is Ok <==> opened is Some
            &&& opened is Some ==> result->Ok_0 is Plaintext && result->Ok_0->Plaintext_0@
                == opened->0
        },
        result is Err ==> result->Err_0 == StateFileError::Decrypt,
{
    if file@.len() >= 12 {
        assert(file@.take(cipher::NONCE_BYTES as int) =~= file@.subrange(0, 12));
        assert(file@.skip(cipher::NONCE_BYTES as int) =~= file@.subrange(12, file@.len() as int));
    }
}

/// A state file starts with its nonce, and what the cipher made of the plaintext
/// under that nonce follows. Whatever follows a nonce, it is read under that nonce.
pub proof fn law_file_is_nonce_and_ciphertext(
    key: Seq<u8>,
    nonce: Seq<u8>,
    plaintext: Seq<u8>,
    ciphertext: Seq<u8>,
)
    requires
        nonce.len() == 12,
    ensures
        file_bytes(key, nonce, plaintext).subrange(0, 12) == nonce,
        file_bytes(key, nonce, plaintext).skip(12) == cipher::sealed(key, nonce, plaintext),
        file_bytes(key, nonce, plaintext).len() == 12 + cipher::sealed(key, nonce, plaintext).len(),
        file_plaintext(key, nonce + ciphertext) == cipher::opened(key, nonce, ciphertext),
        file_plaintext(key, file_bytes(key, nonce, plaintext)) == cipher::opened(
            key,
            nonce,
            cipher::sealed(key, nonce, plaintext),
        ),
{
    let sealed = cipher::sealed(key, nonce, plaintext);
    assert(file_bytes(key, nonce, plaintext).subrange(0, 12) =~= nonce);
    assert(file_bytes(key, nonce, plaintext).skip(12) =~= sealed);
    assert((nonce + ciphertext).take(12) =~= nonce);
    assert((nonce + ciphertext).skip(12) =~= ciphertext);
    assert(file_bytes(key, nonce, plaintext).take(12) =~= nonce);
}

/// A file that is too short for a nonce holds nothing.
pub proof fn law_short_file_holds_nothing(key: Seq<u8>, file: Seq<u8>)
    requires
        file.len() < 12,
    ensures
        file_plaintext(key, file) is None,
{
}

/// The cipher answers for every file but those of a few lengths near 256 GiB.
pub proof fn law_nearly_every_file_is_answered(length: nat)
    ensures
        answered_file_length(length) <==> !(274_877_906_844 < length < 274_877_906_908),
{
}

}
