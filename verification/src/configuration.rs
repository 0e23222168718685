//! Settings of the server.

use vstd::prelude::*;
use vstd::string::*;
use vstd::utf8::encode_utf8;
use crate::encoding::base64_decode;
use crate::encoding::base64_decoded;
use crate::encoding::base64_encode;
use crate::encoding::base64_text;
use crate::encoding::decimal_text;
use crate::encoding::push_char;
use crate::encoding::push_decimal;
use crate::encoding::text_of;
use crate::keys::RootKey;

verus! {

/// Everything the server is configured with.
pub struct Settings {
    pub database: DatabaseSettings,
    pub application_host: String,
    pub application_port: u16,
    /// The long-lived signing key, in base64. Where it is absent or unusable
    /// the server signs with a key of its own making, and every token it
    /// issued before a restart is void.
    pub private_key: Option<String>,
    pub github_admin_app: OAuth,
}

/// Credentials of the OAuth application.
pub struct OAuth {
    pub client_id: String,
    pub client_secret: String,
}

/// Where the database is and how to log in.
pub struct DatabaseSettings {
    pub username: String,
    pub password: String,
    pub port: u16,
    pub host: String,
    pub database_name: String,
}

impl DatabaseSettings {
    /// The address of the database server, without a database:
    /// `postgres://<username>:<password>@<host>:<port>`.
    pub open spec fn server_url(self) -> Seq<char> {
        "postgres://"@ + self.username@ + seq![':'] + self.password@ + seq!['@'] + self.host@
            + seq![':'] + decimal_text(self.port as nat)
    }

    /// The address of the database: the server's address, a slash and the
    /// database's name.
    pub open spec fn database_url(self) -> Seq<char> {
        self.server_url() + seq!['/'] + self.database_name@
    }

    pub fn connection_string_without_db(&self) -> (url: String)
        ensures
            url@ == self.server_url(),
    {
        let mut url = String::from_str("postgres://");
        url.append(self.username.as_str());
        push_char(&mut url, ':');
        url.append(self.password.as_str());
        push_char(&mut url, '@');
        url.append(self.host.as_str());
        push_char(&mut url, ':');
        push_decimal(&mut url, self.port as u64);
        url
    }

    pub fn connection_string(&self) -> (url: String)
        ensures
            url@ == self.database_url(),
    {
        let mut url = self.connection_string_without_db();
        push_char(&mut url, '/');
        url.append(self.database_name.as_str());
        url
    }
}

/// The signing key that the settings name: the bytes that `private_key`
/// decodes to, where it is present, decodes, and has the length of a key.
pub open spec fn configured_key(private_key: Option<Seq<char>>) -> Option<Seq<u8>> {
    match private_key {
        Some(text) => match base64_decoded(encode_utf8(text)) {
            Some(bytes) => if bytes.len() == 32 {
                Some(bytes)
            } else {
                None
            },
            None => None,
        },
        None => None,
    }
}

impl Settings {
    /// The bytes of the configured signing key, where the settings name a
    /// usable one.
    pub fn private_key_bytes(&self) -> (key: Option<Vec<u8>>)
        ensures
            match key {
                Some(bytes) => configured_key(text_of(self.private_key)) == Some(bytes@),
                None => configured_key(text_of(self.private_key)) is None,
            },
    {
        match &self.private_key {
            Some(text) => match base64_decode(text.as_str().as_bytes()) {
                Some(bytes) => if bytes.len() == 32 {
                    Some(bytes)
                } else {
                    None
                },
                None => None,
            },
            None => None,
        }
    }

    /// The key the server signs with: the configured key where the settings
    /// name a usable one, else a key generated now.
    pub fn get_keypair(&self) -> (root: RootKey)
        ensures
            root@.len() == 32,
            configured_key(text_of(self.private_key)) matches Some(bytes) ==> root@ == bytes,
    {
        match self.private_key_bytes() {
            Some(bytes) => match RootKey::from_bytes(bytes) {
                Some(root) => root,
                None => RootKey::generate(),
            },
            None => RootKey::generate(),
        }
    }
}

/// How a private key is written out: its base64 text, inside double quotes
/// where the output is meant for a Dhall file.
pub open spec fn key_output(key: Seq<u8>, dhall: bool) -> Seq<char> {
    if dhall {
        seq!['"'] + base64_text(key) + seq!['"']
    } else {
        base64_text(key)
    }
}

/// Writes out the private key. Without quotes, the text is one that the
/// settings accept as `private_key`, and it names this key.
pub fn private_key_output(root: &RootKey, dhall: bool) -> (text: String)
    ensures
        text@ == key_output(root@, dhall),
        !dhall ==> configured_key(Some(text@)) == Some(root@),
{
    let key = root.to_bytes();
    let encoded = base64_encode(key.as_slice());
    if dhall {
        let mut text = String::new();
        push_char(&mut text, '"');
        text.append(encoded.as_str());
        push_char(&mut text, '"');
        assert(text@ =~= key_output(root@, dhall));
        text
    } else {
        encoded
    }
}

} // verus!
