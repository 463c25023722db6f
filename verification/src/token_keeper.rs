//! The cached token: what the provider issued, when it was received, and when it runs out.
//!
//! A [`TokenKeeper`] is the record in memory. A [`StoredToken`] is what the cache file holds of
//! it: everything but the directory. Reading and writing the file is the caller's work; the
//! functions here turn what the caller found into a record, and a record into what is to be
//! written.

use crate::error::{ErrorCodes, OAuth2Error, OAuth2Result};
use crate::text::{copy_of, text_of};
use vstd::prelude::*;
use vstd::string::*;

verus! {

/// What the provider answers to a successful exchange.
#[derive(Clone, Debug, PartialEq, Eq)]
pub struct TokenResponse {
    pub access_token: String,
    pub refresh_token: Option<String>,
    /// The token's lifetime in seconds, where the provider declared one.
    pub expires_in: Option<u64>,
    pub token_type: String,
}

/// The part of a record that the cache file holds.
#[derive(Clone, Debug, PartialEq, Eq)]
pub struct StoredToken {
    pub access_token: String,
    pub refresh_token: Option<String>,
    pub token_type: String,
    /// Seconds from receipt to expiry.
    pub expires_in: u64,
    /// When the token was received, in seconds since the Unix epoch.
    pub token_receive_time: u64,
}

/// A [`StoredToken`] as plain values.
pub struct StoredRecord {
    pub access_token: Seq<char>,
    pub refresh_token: Option<Seq<char>>,
    pub token_type: Seq<char>,
    pub expires_in: nat,
    pub received_at: nat,
}

/// A [`TokenKeeper`] as plain values.
pub struct TokenRecord {
    pub access_token: Seq<char>,
    pub refresh_token: Option<Seq<char>>,
    pub token_type: Seq<char>,
    pub expires_in: nat,
    pub received_at: nat,
    pub directory: Seq<char>,
}

impl View for StoredToken {
    type V = StoredRecord;

    open spec fn view(&self) -> StoredRecord {
        StoredRecord {
            access_token: self.access_token@,
            refresh_token: text_of(self.refresh_token),
            token_type: self.token_type@,
            expires_in: self.expires_in as nat,
            received_at: self.token_receive_time as nat,
        }
    }
}

impl StoredRecord {
    /// The record that this content gives when it is loaded from `directory`.
    pub open spec fn at(self, directory: Seq<char>) -> TokenRecord {
        TokenRecord {
            access_token: self.access_token,
            refresh_token: self.refresh_token,
            token_type: self.token_type,
            expires_in: self.expires_in,
            received_at: self.received_at,
            directory,
        }
    }
}

impl TokenRecord {
    /// A record is usable only with an access token in it.
    pub open spec fn valid(self) -> bool {
        self.access_token.len() > 0
    }

    /// The moment at which the token runs out, in seconds since the Unix epoch.
    pub open spec fn expires_at(self) -> int {
        (self.received_at + self.expires_in) as int
    }

    /// Whether the token has run out at `now`. The moment of expiry itself counts as expired.
    pub open spec fn expired(self, now: int) -> bool {
        self.expires_at() <= now
    }

    /// What the cache file holds of this record.
    pub open spec fn stored(self) -> StoredRecord {
        StoredRecord {
            access_token: self.access_token,
            refresh_token: self.refresh_token,
            token_type: self.token_type,
            expires_in: self.expires_in,
            received_at: self.received_at,
        }
    }

    /// The record that a response received at `now` gives. A response that declares no lifetime
    /// gives a token that has run out on receipt.
    pub open spec fn issued(response: TokenResponse, now: u64, directory: Seq<char>) -> TokenRecord {
        TokenRecord {
            access_token: response.access_token@,
            refresh_token: text_of(response.refresh_token),
            token_type: response.token_type@,
            expires_in: match response.expires_in {
                Some(seconds) => seconds as nat,
                None => 0,
            },
            received_at: now as nat,
            directory,
        }
    }
}

/// What the caller found when it read the cache file.
#[derive(Clone, Debug, PartialEq, Eq)]
pub enum ReadOutcome {
    /// The file holds this.
    Found(StoredToken),
    /// There is no such file.
    Missing,
    /// The file is there and holds no token record; the text says what is wrong with it.
    Corrupt(String),
    /// The file could not be read.
    Unreadable(String),
}

/// How the caller's attempt to write the cache file ended.
#[derive(Clone, Debug, PartialEq, Eq)]
pub enum WriteOutcome {
    Written,
    Failed(String),
}

/// How the caller's attempt to remove the cache file ended.
#[derive(Clone, Debug, PartialEq, Eq)]
pub enum RemoveOutcome {
    Removed,
    /// There was no file to remove.
    Missing,
    Failed(String),
}

/// A record, or the failure to make one: its kind and its text.
pub type Made = Result<TokenRecord, (ErrorCodes, Seq<char>)>;

/// What a record that was made, or the failure to make it, holds.
pub open spec fn made_of(made: OAuth2Result<TokenKeeper>) -> Made {
    match made {
        Ok(keeper) => Ok(keeper@),
        Err(e) => Err((e.error_code, e.error_message@)),
    }
}

/// What a response received at `now` amounts to: the record that it gives for `directory`, or
/// a failed exchange where it holds no access token.
pub open spec fn granted(response: TokenResponse, now: u64, directory: Seq<char>) -> Made {
    let record = TokenRecord::issued(response, now, directory);
    if record.valid() {
        Ok(record)
    } else {
        Err((ErrorCodes::ExchangeError, "The provider issued an empty access token."@))
    }
}

/// What the content of a cache file amounts to when it is loaded from `directory`: a record, or
/// a malformed file where it holds no access token.
pub open spec fn restored(stored: StoredRecord, directory: Seq<char>) -> Made {
    if stored.at(directory).valid() {
        Ok(stored.at(directory))
    } else {
        Err((ErrorCodes::Malformed, "The cached record holds no access token."@))
    }
}

/// What the reading of the cache file in `directory` amounts to: the record that it holds, or
/// `NotFound` for a missing file, `Malformed` for one that holds no token record, `IoError` for
/// one that could not be read.
pub open spec fn loaded(outcome: ReadOutcome, directory: Seq<char>) -> Made {
    match outcome {
        ReadOutcome::Found(stored) => restored(stored@, directory),
        ReadOutcome::Missing => Err((ErrorCodes::NotFound, "No token is cached."@)),
        ReadOutcome::Corrupt(why) => Err((ErrorCodes::Malformed, why@)),
        ReadOutcome::Unreadable(why) => Err((ErrorCodes::IoError, why@)),
    }
}

/// A token record in memory. Its access token is never empty.
#[derive(Debug, PartialEq, Eq)]
pub struct TokenKeeper {
    access_token: String,
    refresh_token: Option<String>,
    token_type: String,
    expires_in: u64,
    token_receive_time: u64,
    file_directory: String,
}

impl View for TokenKeeper {
    type V = TokenRecord;

    closed spec fn view(&self) -> TokenRecord {
        TokenRecord {
            access_token: self.access_token@,
            refresh_token: text_of(self.refresh_token),
            token_type: self.token_type@,
            expires_in: self.expires_in as nat,
            received_at: self.token_receive_time as nat,
            directory: self.file_directory@,
        }
    }
}

/// The system clock in seconds since the Unix epoch: `std::time::SystemTime::now`, turned into
/// a `chrono::DateTime<Utc>` by chrono's `From<SystemTime>`, which counts backwards for a clock
/// that stands before the epoch, and read with `DateTime::timestamp`. Nothing is claimed of the
/// number: a clock may stand anywhere, and two readings need not be in order.
#[verifier::external_body]
fn clock_seconds() -> (seconds: i64) {
    chrono::DateTime::<chrono::Utc>::from(std::time::SystemTime::now()).timestamp()
}

/// The moment that a clock shows, in seconds since the Unix epoch; the epoch itself where the
/// clock stands before it.
pub fn since_epoch(clock: i64) -> (seconds: u64)
    ensures
        seconds == (if clock < 0 {
            0
        } else {
            clock
        }),
{
    if clock < 0 {
        0
    } else {
        clock as u64
    }
}

/// The present moment by the system clock, in seconds since the Unix epoch.
pub fn unix_now() -> (now: u64)
    ensures
        now <= i64::MAX,
{
    since_epoch(clock_seconds())
}

impl TokenKeeper {
    #[verifier::type_invariant]
    spec fn holds_a_token(self) -> bool {
        self.access_token@.len() > 0
    }

    /// The record that `response`, received at `now`, gives for the cache in `file_directory`.
    /// A response without an access token is no grant: it is refused as a failed exchange.
    pub fn from_response(response: TokenResponse, now: u64, file_directory: String) -> (made:
        OAuth2Result<TokenKeeper>)
        ensures
            made_of(made) == granted(response, now, file_directory@),
    {
        if response.access_token.as_str().unicode_len() == 0 {
            return Err(
                OAuth2Error::with_text(
                    ErrorCodes::ExchangeError,
                    "The provider issued an empty access token.",
                ),
            );
        }
        let expires_in: u64 = match response.expires_in {
            Some(seconds) => seconds,
            None => 0,
        };
        Ok(
            TokenKeeper {
                access_token: response.access_token,
                refresh_token: response.refresh_token,
                token_type: response.token_type,
                expires_in,
                token_receive_time: now,
                file_directory,
            },
        )
    }

    /// The record that the content of a cache file gives, loaded from `file_directory`. Content
    /// without an access token is refused as malformed.
    pub fn from_stored(stored: StoredToken, file_directory: String) -> (made: OAuth2Result<
        TokenKeeper,
    >)
        ensures
            made_of(made) == restored(stored@, file_directory@),
    {
        if stored.access_token.as_str().unicode_len() == 0 {
            return Err(
                OAuth2Error::with_text(
                    ErrorCodes::Malformed,
                    "The cached record holds no access token.",
                ),
            );
        }
        Ok(
            TokenKeeper {
                access_token: stored.access_token,
                refresh_token: stored.refresh_token,
                token_type: stored.token_type,
                expires_in: stored.expires_in,
                token_receive_time: stored.token_receive_time,
                file_directory,
            },
        )
    }

    /// What is to be written to the cache file for this record.
    pub fn to_stored(&self) -> (stored: StoredToken)
        ensures
            stored@ == self@.stored(),
    {
        StoredToken {
            access_token: self.access_token.clone(),
            refresh_token: copy_of(&self.refresh_token),
            token_type: self.token_type.clone(),
            expires_in: self.expires_in,
            token_receive_time: self.token_receive_time,
        }
    }

    /// What the reading of the cache file in `file_directory` amounts to; see [`loaded`].
    pub fn read(outcome: ReadOutcome, file_directory: String) -> (made: OAuth2Result<TokenKeeper>)
        ensures
            made_of(made) == loaded(outcome, file_directory@),
    {
        match outcome {
            ReadOutcome::Found(stored) => Self::from_stored(stored, file_directory),
            ReadOutcome::Missing => Err(
                OAuth2Error::with_text(ErrorCodes::NotFound, "No token is cached."),
            ),
            ReadOutcome::Corrupt(why) => Err(OAuth2Error::new(ErrorCodes::Malformed, why)),
            ReadOutcome::Unreadable(why) => Err(OAuth2Error::new(ErrorCodes::IoError, why)),
        }
    }

    /// Whether the record counts as saved after the caller's attempt to write it.
    pub fn save(&self, outcome: WriteOutcome) -> (saved: OAuth2Result<()>)
        ensures
            match outcome {
                WriteOutcome::Written => saved is Ok,
                WriteOutcome::Failed(why) => saved matches Err(e) && e.error_code
                    == ErrorCodes::IoError && e.error_message@ == why@,
            },
    {
        match outcome {
            WriteOutcome::Written => Ok(()),
            WriteOutcome::Failed(why) => Err(OAuth2Error::new(ErrorCodes::IoError, why)),
        }
    }

    /// Whether the record counts as deleted after the caller's attempt to remove its file. A file
    /// that was not there is deleted.
    pub fn delete(outcome: RemoveOutcome) -> (deleted: OAuth2Result<()>)
        ensures
            match outcome {
                RemoveOutcome::Removed => deleted is Ok,
                RemoveOutcome::Missing => deleted is Ok,
                RemoveOutcome::Failed(why) => deleted matches Err(e) && e.error_code
                    == ErrorCodes::IoError && e.error_message@ == why@,
            },
    {
        match outcome {
            RemoveOutcome::Removed => Ok(()),
            RemoveOutcome::Missing => Ok(()),
            RemoveOutcome::Failed(why) => Err(OAuth2Error::new(ErrorCodes::IoError, why)),
        }
    }

    /// Whether the token has run out at `now`, in seconds since the Unix epoch. The moment of
    /// expiry itself counts as expired.
    pub fn has_expired_at(&self, now: u64) -> (expired: bool)
        ensures
            expired == self@.expired(now as int),
    {
        now >= self.token_receive_time && now - self.token_receive_time >= self.expires_in
    }

    /// Whether the token has run out by the system clock.
    pub fn has_access_token_expired(&self) -> (expired: bool)
        ensures
            exists|now: u64| now <= i64::MAX && expired == #[trigger] self@.expired(now as int),
    {
        let now = unix_now();
        self.has_expired_at(now)
    }

    pub fn access_token(&self) -> (token: &String)
        ensures
            token@ == self@.access_token,
            token@.len() > 0,
    {
        proof {
            use_type_invariant(self);
        }
        &self.access_token
    }

    pub fn refresh_token(&self) -> (token: &Option<String>)
        ensures
            text_of(*token) == self@.refresh_token,
    {
        &self.refresh_token
    }

    pub fn token_type(&self) -> (kind: &String)
        ensures
            kind@ == self@.token_type,
    {
        &self.token_type
    }

    pub fn expires_in(&self) -> (seconds: u64)
        ensures
            seconds == self@.expires_in,
    {
        self.expires_in
    }

    pub fn token_receive_time(&self) -> (seconds: u64)
        ensures
            seconds == self@.received_at,
    {
        self.token_receive_time
    }

    pub fn file_directory(&self) -> (directory: &String)
        ensures
            directory@ == self@.directory,
    {
        &self.file_directory
    }

    /// Moves the record to another cache directory.
    pub fn set_directory(&mut self, file_directory: String)
        ensures
            final(self)@ == old(self)@.stored().at(file_directory@),
    {
        proof {
            use_type_invariant(&*self);
        }
        self.file_directory = file_directory;
    }

    /// A second record with the same content.
    pub fn duplicate(&self) -> (copy: TokenKeeper)
        ensures
            copy@ == self@,
    {
        proof {
            use_type_invariant(self);
        }
        TokenKeeper {
            access_token: self.access_token.clone(),
            refresh_token: copy_of(&self.refresh_token),
            token_type: self.token_type.clone(),
            expires_in: self.expires_in,
            token_receive_time: self.token_receive_time,
            file_directory: self.file_directory.clone(),
        }
    }
}

/// Writing a record and reading what was written gives the record back, with the same access
/// token, refresh token, token type and expiry, where it is read from the directory that it was
/// written for.
pub proof fn lemma_stored_record_loads_back(record: TokenRecord, file: StoredToken)
    requires
        record.valid(),
        file@ == record.stored(),
    ensures
        loaded(ReadOutcome::Found(file), record.directory) == Ok::<
            TokenRecord,
            (ErrorCodes, Seq<char>),
        >(record),
{
}

} // verus!
