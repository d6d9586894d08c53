use vstd::prelude::*;
use crate::model::Credentials;

verus! {

/// What reading and decoding the credentials file came to.
#[derive(Debug)]
pub enum SecretsFile {
    /// There is no such file.
    Missing,
    /// The file exists but could not be read.
    Unreadable(String),
    /// The file was read but does not hold a credentials record.
    Malformed(String),
    /// The file holds this record.
    Parsed(Credentials),
}

/// Why no credentials could be had.
#[derive(Debug)]
pub enum CredentialError {
    /// No credentials file exists: a normal condition, not corruption.
    Absent,
    /// The file could not be read.
    Unreadable(String),
    /// The file does not hold a credentials record.
    Malformed(String),
}

/// The stored credentials, or why there are none. Absence is told apart from
/// a malformed or unreadable file.
pub fn load_credentials(file: SecretsFile) -> (r: Result<Credentials, CredentialError>)
    ensures
        file is Missing ==> r matches Err(CredentialError::Absent),
        file matches SecretsFile::Unreadable(e) ==> r == Err::<Credentials, CredentialError>(
            CredentialError::Unreadable(e),
        ),
        file matches SecretsFile::Malformed(e) ==> r == Err::<Credentials, CredentialError>(
            CredentialError::Malformed(e),
        ),
        file matches SecretsFile::Parsed(c) ==> r == Ok::<Credentials, CredentialError>(c),
{
    match file {
        SecretsFile::Missing => Err(CredentialError::Absent),
        SecretsFile::Unreadable(e) => Err(CredentialError::Unreadable(e)),
        SecretsFile::Malformed(e) => Err(CredentialError::Malformed(e)),
        SecretsFile::Parsed(c) => Ok(c),
    }
}

} // verus!
