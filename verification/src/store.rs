//! The token store: the one persisted credential record.
//!
//! A [`TokenStore`] is the image of the store in memory: whether the
//! configuration directory exists, and the text of the token file if there is
//! one. The caller reads the image from disk before it asks and writes it back
//! after a save.

use crate::codec::{read_document, token_document, token_record, write_document};
use crate::credential::{optional_credential, Credential, CredentialView};
use crate::error::Error;
use crate::text::optional_text;
use vstd::prelude::*;

verus! {

/// What a [`TokenStore`] holds, as mathematical values.
pub struct TokenStoreView {
    /// Whether the configuration directory exists.
    pub directory: bool,
    /// The text of the token file, if the file exists.
    pub contents: Option<Seq<char>>,
}

/// The image of the persisted state.
#[derive(Debug)]
pub struct TokenStore {
    directory: bool,
    contents: Option<String>,
}

/// The store after the token file was replaced by a document: the directory
/// exists and the file holds the document. Without a document the store
/// stays as it was.
pub open spec fn spec_replace(store: TokenStoreView, document: Option<Seq<char>>)
    -> TokenStoreView {
    match document {
        Some(text) => TokenStoreView { directory: true, contents: Some(text) },
        None => store,
    }
}

/// The store after a save of `credential`: the token file is replaced by the
/// credential's document.
pub open spec fn spec_save(store: TokenStoreView, credential: CredentialView) -> TokenStoreView {
    spec_replace(store, token_document(credential))
}

/// What a load gives, from whether there is a token file and what its text
/// was read as: `NotAuthenticated` without a file, `CorruptCredential` where
/// the text holds no credential.
pub open spec fn spec_interpret(present: bool, record: Option<CredentialView>) -> Result<
    CredentialView,
    Error,
> {
    if !present {
        Err(Error::NotAuthenticated)
    } else {
        match record {
            Some(credential) => Ok(credential),
            None => Err(Error::CorruptCredential),
        }
    }
}

/// What a load from the store gives.
pub open spec fn spec_load(store: TokenStoreView) -> Result<CredentialView, Error> {
    spec_interpret(
        store.contents.is_some(),
        match store.contents {
            Some(text) => token_record(text),
            None => None,
        },
    )
}

/// Whether the text form keeps the credential: it has a document, and the
/// document reads back as the same credential.
pub open spec fn survives(credential: CredentialView) -> bool {
    match token_document(credential) {
        Some(text) => token_record(text) == Some(credential),
        None => false,
    }
}

impl View for TokenStore {
    type V = TokenStoreView;

    closed spec fn view(&self) -> TokenStoreView {
        TokenStoreView {
            directory: self.directory,
            contents: optional_text(self.contents),
        }
    }
}

impl TokenStoreView {
    /// A file lies in its directory.
    pub open spec fn wf(self) -> bool {
        self.contents.is_some() ==> self.directory
    }
}

impl TokenStore {
    #[verifier::type_invariant]
    spec fn inv(&self) -> bool {
        self@.wf()
    }

    /// The store of a user who has never authenticated on a machine without
    /// the configuration directory.
    pub fn empty() -> (store: TokenStore)
        ensures
            store@ == (TokenStoreView { directory: false, contents: None }),
    {
        TokenStore { directory: false, contents: None }
    }

    /// The image of what is on disk. A file implies its directory, whatever
    /// the caller found out about the directory.
    pub fn from_disk(directory: bool, contents: Option<String>) -> (store: TokenStore)
        ensures
            store@.directory == (directory || contents.is_some()),
            store@.contents == optional_text(contents),
    {
        let present = contents.is_some();
        TokenStore { directory: directory || present, contents }
    }

    /// Whether a token file exists.
    pub fn is_present(&self) -> (present: bool)
        ensures
            present == self@.contents.is_some(),
    {
        self.contents.is_some()
    }

    /// Whether the configuration directory exists.
    pub fn directory_exists(&self) -> (present: bool)
        ensures
            present == self@.directory,
    {
        self.directory
    }

    /// The text of the token file, for the caller to write to disk.
    pub fn contents(&self) -> (text: Option<&String>)
        ensures
            match text {
                Some(t) => self@.contents == Some(t@),
                None => self@.contents.is_none(),
            },
    {
        self.contents.as_ref()
    }

    /// Reads the credential: `NotAuthenticated` without a file,
    /// `CorruptCredential` where the file does not hold a credential.
    pub fn load(&self) -> (loaded: Result<Credential, Error>)
        ensures
            match loaded {
                Ok(credential) => spec_load(self@) == Ok::<CredentialView, Error>(credential@),
                Err(error) => spec_load(self@) == Err::<CredentialView, Error>(error),
            },
    {
        let record = match &self.contents {
            Some(text) => read_document(text.as_str()),
            None => None,
        };
        TokenStore::interpret(self.contents.is_some(), record)
    }

    /// Decides what a load gives, from whether there is a token file and
    /// what its text was read as.
    pub fn interpret(present: bool, record: Option<Credential>) -> (loaded: Result<
        Credential,
        Error,
    >)
        ensures
            match loaded {
                Ok(credential) => spec_interpret(present, optional_credential(record)) == Ok::<
                    CredentialView,
                    Error,
                >(credential@),
                Err(error) => spec_interpret(present, optional_credential(record)) == Err::<
                    CredentialView,
                    Error,
                >(error),
            },
    {
        if !present {
            Err(Error::NotAuthenticated)
        } else {
            match record {
                Some(credential) => Ok(credential),
                None => Err(Error::CorruptCredential),
            }
        }
    }

    /// Replaces the token file by a document and creates the directory if
    /// it is absent. Without a document nothing changes, and the credential
    /// that had none is reported as `CorruptCredential`.
    pub fn replace(&mut self, document: Option<String>) -> (replaced: Result<(), Error>)
        ensures
            final(self)@ == spec_replace(old(self)@, optional_text(document)),
            replaced == if document.is_some() {
                Ok::<(), Error>(())
            } else {
                Err::<(), Error>(Error::CorruptCredential)
            },
    {
        match document {
            Some(text) => {
                self.directory = true;
                self.contents = Some(text);
                Ok(())
            },
            None => Err(Error::CorruptCredential),
        }
    }

    /// Overwrites the token file with the credential's document and creates
    /// the directory if it is absent. A credential that has no document is
    /// refused as `CorruptCredential`, and the store stays as it was.
    pub fn save(&mut self, credential: &Credential) -> (saved: Result<(), Error>)
        ensures
            final(self)@ == spec_save(old(self)@, credential@),
            saved.is_ok() == token_document(credential@).is_some(),
            saved.is_err() ==> saved == Err::<(), Error>(Error::CorruptCredential),
    {
        self.replace(write_document(credential))
    }
}

/// Whether a save of this credential can be loaded back unchanged.
pub fn survives_round_trip(credential: &Credential) -> (kept: bool)
    ensures
        kept == survives(credential@),
{
    match write_document(credential) {
        Some(text) => match read_document(text.as_str()) {
            Some(back) => back == *credential,
            None => false,
        },
        None => false,
    }
}

/// Round trip: a load after a save yields the saved credential, for every
/// credential that its text form keeps, whatever the store held before.
pub proof fn lemma_load_after_save(store: TokenStoreView, credential: CredentialView)
    requires
        survives(credential),
    ensures
        spec_load(spec_save(store, credential)) == Ok::<CredentialView, Error>(credential),
{
}

/// Idempotence: a second save of the same credential changes nothing.
pub proof fn lemma_save_twice(store: TokenStoreView, credential: CredentialView)
    ensures
        spec_save(spec_save(store, credential), credential) == spec_save(store, credential),
{
}

/// Last write wins: after two saves the store is as after the second alone,
/// where the second credential has a document.
pub proof fn lemma_last_save_wins(
    store: TokenStoreView,
    first: CredentialView,
    second: CredentialView,
)
    requires
        token_document(second).is_some(),
    ensures
        spec_save(spec_save(store, first), second) == spec_save(store, second),
{
}

} // verus!
