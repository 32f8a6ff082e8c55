use rspotify::client_creds::ClientCredsSpotify;
use rspotify::token::Token;
use rspotify::token_flow::{get_token_with, CacheReadOutcome};

fn fetched_token(i: i64) -> Token {
    let value = format!("tok-{i}");
    Token {
        access_token: value.clone(),
        expires_in: 3600,
        expires_at: Some(1000 + i),
        refresh_token: Some(value),
    }
}

fn assert_whole(got: &Token) {
    // Internally consistent: every field belongs to the same fetched
    // credential, never to two different ones.
    let suffix = got.access_token.strip_prefix("tok-").unwrap();
    let i: i64 = suffix.parse().unwrap();
    assert_eq!(got.expires_at, Some(1000 + i));
    assert_eq!(got.refresh_token.as_deref(), Some(got.access_token.as_str()));
    assert_eq!(got.expires_in, 3600);
}

#[test]
fn concurrent_acquire_law() {
    // N callers racing against an empty store, each deciding on its own
    // snapshot: every caller observes a non-empty, internally consistent
    // credential, and the store always holds one fetched credential in
    // its entirety. The number of underlying fetches is unconstrained.
    // The callers run interleaved here; true parallel acquisition rests
    // on the mutual-exclusion wrapper, which serialises each store read
    // and write.
    let client = ClientCredsSpotify::default();
    // Every caller reads its snapshot before any of them writes, the
    // worst racing schedule: all of them decide "store is empty, must
    // fetch".
    let snapshots: Vec<Option<Token>> = (0..8).map(|_| client.token.lock().unwrap()).collect();
    for (i, snapshot) in snapshots.into_iter().enumerate() {
        let mut store = snapshot;
        let (r, trace) = get_token_with(
            &mut store,
            500,
            false,
            CacheReadOutcome::Missing,
            Ok(fetched_token(i as i64)),
            None,
        );
        client.token.set(store);
        assert!(trace.fetched);
        let got = r.unwrap();
        assert_whole(&got);
        assert_whole(&client.token.lock().unwrap().expect("store must not be empty"));
    }

    // A later caller within the validity window reuses the stored
    // credential unchanged, whichever fetch won the race.
    let stored = client.token.lock().unwrap().unwrap();
    let mut snapshot = client.token.lock().unwrap();
    let (r, trace) = get_token_with(
        &mut snapshot,
        600,
        false,
        CacheReadOutcome::Missing,
        Ok(fetched_token(99)),
        None,
    );
    assert!(!trace.fetched);
    assert_eq!(r.unwrap().access_token, stored.access_token);
}
