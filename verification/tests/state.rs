use token_manager::offset_date_time::OffsetDateTime;
use token_manager::state::{
    seal_file, AppState, AppStateOnDisk, GetTokenError, LoadedState, StateFileError, TokenLookup,
    TokenState, UnknownProvider,
};
use token_manager::timestamp::{Timestamp, MAX_NANOSECONDS};

const KEY: [u8; 32] = [
    0, 1, 2, 3, 4, 5, 6, 7, 8, 9, 10, 11, 12, 13, 14, 15, 16, 17, 18, 19, 20, 21, 22, 23, 24, 25,
    26, 27, 28, 29, 30, 31,
];

const NONCE: [u8; 12] = [100, 101, 102, 103, 104, 105, 106, 107, 108, 109, 110, 111];

fn seconds(count: i128) -> Timestamp {
    Timestamp::from_nanoseconds(count * 1_000_000_000).unwrap()
}

fn token(name: &str, expires_at: i128) -> TokenState {
    TokenState {
        acquired_at: OffsetDateTime::from_timestamp(seconds(0)),
        expires_at: OffsetDateTime::from_timestamp(seconds(expires_at)),
        access_token: format!("{name} access"),
        refresh_token: format!("{name} refresh"),
    }
}

fn empty() -> AppState {
    AppState::new(KEY, AppStateOnDisk { youtube: None, spotify: None })
}

fn fresh_token(found: TokenLookup<'_>) -> Option<String> {
    match found {
        TokenLookup::Fresh(access_token) => Some(access_token),
        TokenLookup::Absent | TokenLookup::Stale(_) => None,
    }
}

#[test]
fn no_token_is_absent() {
    assert!(matches!(empty().get_youtube_token_at(&seconds(0)), TokenLookup::Absent));
    assert!(matches!(empty().get_youtube_token(), TokenLookup::Absent));
}

#[test]
fn inserted_token_is_found() {
    let mut state = empty();
    state.insert_youtube_token(token("first", 1000));
    assert_eq!(fresh_token(state.get_youtube_token_at(&seconds(10))), Some("first access".into()));
    state.insert_youtube_token(token("second", 1000));
    assert_eq!(fresh_token(state.get_youtube_token_at(&seconds(10))), Some("second access".into()));
}

#[test]
fn token_is_fresh_for_more_than_a_minute() {
    let mut state = empty();
    state.insert_youtube_token(token("t", 1000));
    let edge = seconds(940).as_nanoseconds();
    let before = Timestamp::from_nanoseconds(edge - 1).unwrap();
    let at = Timestamp::from_nanoseconds(edge).unwrap();
    assert!(matches!(state.get_youtube_token_at(&before), TokenLookup::Fresh(_)));
    assert!(matches!(state.get_youtube_token_at(&at), TokenLookup::Stale(_)));
    assert!(matches!(state.get_youtube_token_at(&seconds(941)), TokenLookup::Stale(_)));
    assert!(matches!(state.get_youtube_token_at(&seconds(5000)), TokenLookup::Stale(_)));
}

#[test]
fn freshness_goes_by_the_moment() {
    // Ten past one on clocks an hour ahead of UTC.
    let mut youtube = token("t", 0);
    youtube.expires_at = OffsetDateTime::new(4200 * 1_000_000_000, 3600).unwrap();
    let mut state = empty();
    state.insert_youtube_token(youtube);
    assert!(matches!(state.get_youtube_token_at(&seconds(539)), TokenLookup::Fresh(_)));
    assert!(matches!(state.get_youtube_token_at(&seconds(540)), TokenLookup::Stale(_)));
}

#[test]
fn last_date_behind_utc_is_held() {
    // The end of the year 9999 on clocks two hours behind UTC.
    let last = OffsetDateTime::new(MAX_NANOSECONDS, -7200).unwrap();
    let mut youtube = token("t", 0);
    youtube.expires_at = last;
    let mut state = empty();
    state.insert_youtube_token(youtube);
    let end = Timestamp::from_nanoseconds(MAX_NANOSECONDS - 60_000_000_000).unwrap();
    match state.get_youtube_token_at(&end) {
        TokenLookup::Fresh(access_token) => assert_eq!(access_token, "t access"),
        TokenLookup::Absent | TokenLookup::Stale(_) => panic!("the token is valid for hours"),
    }
    let kept = state.data.youtube.unwrap().expires_at;
    assert_eq!(kept.local_nanoseconds(), MAX_NANOSECONDS);
    assert_eq!(kept.offset_seconds(), -7200);
}

#[test]
fn stale_token_is_shown_for_the_refresh() {
    let mut state = empty();
    state.insert_youtube_token(token("old", 30));
    match state.get_youtube_token_at(&seconds(0)) {
        TokenLookup::Stale(stale) => assert_eq!(stale.refresh_token, "old refresh"),
        TokenLookup::Absent | TokenLookup::Fresh(_) => panic!("the token expires too soon"),
    };
}

#[test]
fn lookup_reads_the_clock() {
    let now = Timestamp::now().as_nanoseconds() / 1_000_000_000;
    let mut state = empty();
    state.insert_youtube_token(token("new", now + 3600));
    assert_eq!(fresh_token(state.get_youtube_token()), Some("new access".into()));
    state.insert_youtube_token(token("old", now + 30));
    assert!(matches!(state.get_youtube_token(), TokenLookup::Stale(_)));
}

#[test]
fn refreshed_token_is_served() {
    let mut state = empty();
    state.insert_youtube_token(token("old", 30));
    let outcome: Result<Option<TokenState>, String> = Ok(Some(token("new", 1000)));
    assert!(state.refreshed(outcome).is_ok());
    let answer = match state.saved(Ok::<(), String>(())) {
        Ok(answer) => answer,
        Err(_) => panic!("the state was saved"),
    };
    assert_eq!(answer, Some("new access".to_string()));
    assert_eq!(fresh_token(state.get_youtube_token_at(&seconds(0))), Some("new access".into()));
}

#[test]
fn withdrawn_token_is_gone() {
    let mut state = empty();
    state.insert_youtube_token(token("old", 30));
    assert!(state.refreshed(Ok::<Option<TokenState>, String>(None)).is_ok());
    assert!(matches!(state.saved(Ok::<(), String>(())), Ok(None)));
    assert!(matches!(state.get_youtube_token_at(&seconds(0)), TokenLookup::Absent));
}

#[test]
fn failed_refresh_changes_nothing() {
    let mut state = empty();
    state.insert_youtube_token(token("old", 30));
    match state.refreshed(Err("revoked".to_string())) {
        Err(error) => {
            assert_eq!(error.context(), "should refresh youtube token");
            assert!(matches!(error, GetTokenError::Refresh(cause) if cause == "revoked"));
        }
        Ok(()) => panic!("the refresh failed"),
    }
    match state.get_youtube_token_at(&seconds(0)) {
        TokenLookup::Stale(stale) => assert_eq!(stale.access_token, "old access"),
        TokenLookup::Absent | TokenLookup::Fresh(_) => panic!("nothing changed"),
    };
}

#[test]
fn failed_save_is_reported_and_keeps_the_token() {
    let mut state = empty();
    state.insert_youtube_token(token("old", 30));
    assert!(state.refreshed(Ok::<Option<TokenState>, String>(Some(token("new", 1000)))).is_ok());
    match state.saved(Err("disk full".to_string())) {
        Err(error) => {
            assert_eq!(error.context(), "saving new state to file");
            assert!(matches!(error, GetTokenError::Save(cause) if cause == "disk full"));
        }
        Ok(_) => panic!("the state was not saved"),
    }
    assert_eq!(fresh_token(state.get_youtube_token_at(&seconds(0))), Some("new access".into()));
}

#[test]
fn tokens_are_inserted_by_provider() {
    let mut state = empty();
    assert_eq!(state.insert_token("youtube", token("y", 1000)), Ok(()));
    assert_eq!(state.insert_token("spotify", token("s", 2000)), Ok(()));
    assert_eq!(state.insert_token("google", token("g", 3000)), Err(UnknownProvider));
    assert_eq!(state.data.youtube.as_ref().unwrap().access_token, "y access");
    assert_eq!(state.data.spotify.as_ref().unwrap().access_token, "s access");
    assert_eq!(state.key, KEY);
}

#[test]
fn sealed_file_is_nonce_and_ciphertext() {
    assert_eq!(
        hex::encode(seal_file(&KEY, &NONCE, b"youtube")),
        "6465666768696a6b6c6d6e6f4d7ecebeedc71334fabc2b854e853ad7f2acc32a699340"
    );
    assert_eq!(
        hex::encode(seal_file(&KEY, &NONCE, b"")),
        "6465666768696a6b6c6d6e6fa33126986fcb1312c2476c125059ffe4"
    );
}

fn plaintext_of(file: Vec<u8>, key: [u8; 32]) -> Result<Vec<u8>, StateFileError> {
    match AppState::load_from_disk(key, Some(file)) {
        Ok(LoadedState::Plaintext(plaintext)) => Ok(plaintext),
        Ok(LoadedState::Empty(_)) => panic!("there is a file"),
        Err(error) => Err(error),
    }
}

#[test]
fn saved_file_loads() {
    let text: Vec<u8> = b"[youtube]\naccess_token = \"t\"\n".to_vec();
    let file = empty().save_to_disk(&text);
    assert_eq!(file.len(), text.len() + 28);
    assert_eq!(plaintext_of(file, KEY), Ok(text));
    assert_eq!(plaintext_of(empty().save_to_disk(b""), KEY), Ok(Vec::new()));
}

#[test]
fn nonces_differ() {
    let first = empty().save_to_disk(b"state");
    let second = empty().save_to_disk(b"state");
    assert_ne!(first[..12], second[..12]);
    assert_ne!(first, second);
}

#[test]
fn damaged_file_is_an_error() {
    let file = empty().save_to_disk(b"state");
    for position in 0..file.len() {
        let mut damaged = file.clone();
        damaged[position] ^= 1;
        assert_eq!(plaintext_of(damaged, KEY), Err(StateFileError::Decrypt));
    }
    assert_eq!(plaintext_of(file, [7; 32]), Err(StateFileError::Decrypt));
}

#[test]
fn short_file_is_an_error() {
    let file = empty().save_to_disk(b"");
    for length in 0..file.len() {
        assert_eq!(plaintext_of(file[..length].to_vec(), KEY), Err(StateFileError::Decrypt));
    }
}

#[test]
fn missing_file_is_an_empty_state() {
    match AppState::load_from_disk(KEY, None) {
        Ok(LoadedState::Empty(state)) => {
            assert_eq!(state.key, KEY);
            assert!(state.data.youtube.is_none());
            assert!(state.data.spotify.is_none());
        }
        Ok(LoadedState::Plaintext(_)) | Err(_) => panic!("there is no file"),
    }
}
