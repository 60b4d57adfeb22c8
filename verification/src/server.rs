use crate::string::{StringModel, TCString};
use crate::traits::{PassByPointer, PassByValue};
use crate::types::TCUuid;
use crate::util::err_to_tcstring;
use vstd::prelude::*;
use vstd::slice::*;
use vstd::std_specs::convert::FromSpecImpl;
use vstd::utf8::*;

verus! {

/// What a server is made from.
#[derive(Debug, PartialEq, Eq)]
pub enum ServerConfig {
    /// A server that keeps its data on the local disk.
    Local {
        /// The path of the directory that holds the data, as bytes.
        server_dir: Vec<u8>,
    },
    /// A server that is reached over the network.
    Remote {
        /// The origin of the server: a URL without a path.
        origin: String,
        /// The key that names this client to the server.
        client_key: [u8; 16],
        /// The secret under which everything sent to the server is
        /// encrypted.
        encryption_secret: Vec<u8>,
    },
}

/// What a [`ServerConfig`] holds.
pub enum ServerConfigModel {
    /// A server that keeps its data on the local disk.
    Local {
        /// The path of the directory that holds the data, as bytes.
        server_dir: Seq<u8>,
    },
    /// A server that is reached over the network.
    Remote {
        /// The origin of the server.
        origin: Seq<char>,
        /// The key that names this client to the server.
        client_key: Seq<u8>,
        /// The secret under which everything sent to the server is
        /// encrypted.
        encryption_secret: Seq<u8>,
    },
}

impl View for ServerConfig {
    type V = ServerConfigModel;

    open spec fn view(&self) -> ServerConfigModel {
        match *self {
            ServerConfig::Local { server_dir } => ServerConfigModel::Local {
                server_dir: server_dir@,
            },
            ServerConfig::Remote {
                origin,
                client_key,
                encryption_secret,
            } => ServerConfigModel::Remote {
                origin: origin@,
                client_key: client_key@,
                encryption_secret: encryption_secret@,
            },
        }
    }
}

/// A connection to a sync server, behind an opaque pointer. The foreign
/// side can make one and free it, and hand it to what synchronizes; it sees
/// nothing inside. `S` is the connection itself.
pub struct TCServer<S>(S);

impl<S> View for TCServer<S> {
    type V = S;

    closed spec fn view(&self) -> S {
        self.0
    }
}

impl<S> PassByPointer for TCServer<S> {}

impl<S> From<S> for TCServer<S> {
    fn from(server: S) -> (r: TCServer<S>) {
        TCServer(server)
    }
}

impl<S> FromSpecImpl<S> for TCServer<S> {
    open spec fn obeys_from_spec() -> bool {
        true
    }

    open spec fn from_spec(server: S) -> TCServer<S> {
        TCServer::holding(server)
    }
}

impl<S> AsMut<S> for TCServer<S> {
    /// The connection, for use in place.
    fn as_mut(&mut self) -> (r: &mut S)
        ensures
            *r == old(self)@,
            final(self)@ == *final(r),
    {
        &mut self.0
    }
}

impl<S> TCServer<S> {
    /// The server that holds the connection `server`.
    pub closed spec fn holding(server: S) -> TCServer<S> {
        TCServer(server)
    }

    /// A server holds the connection that it was made from.
    pub proof fn lemma_holding(server: S)
        ensures
            Self::holding(server)@ == server,
    {
    }

}

/// What the caller is told of an outcome: whether `value` is what is
/// returned and `message` is what the error slot holds afterwards. On
/// success the outcome's value is returned and the slot holds the Null
/// string. On failure `err_value` is returned and the slot holds the error's
/// message as owned text. `message` is `None` where the caller gave no
/// slot.
pub open spec fn reported<T>(
    outcome: Result<T, String>,
    err_value: T,
    value: T,
    message: Option<StringModel>,
) -> bool {
    match outcome {
        Ok(v) => value == v && (message matches Some(m) ==> m == StringModel::Null),
        Err(e) => value == err_value && (message matches Some(m) ==> m == StringModel::String(
            e@,
        )),
    }
}

/// Tells the caller of an outcome: returns the value on success and
/// `err_value` on failure, and writes the Null string or the error's message
/// to `error_out` where the caller gave one. What the slot held before is
/// overwritten without being read.
pub fn report<T>(
    outcome: Result<T, String>,
    error_out: Option<&mut TCString<'static>>,
    err_value: T,
) -> (r: T)
    ensures
        reported(
            outcome,
            err_value,
            r,
            match error_out {
                Some(slot) => Some(final(slot)@),
                None => None,
            },
        ),
{
    match outcome {
        Ok(v) => {
            match error_out {
                Some(slot) => {
                    *slot = TCString::null();
                },
                None => {},
            }
            v
        },
        Err(e) => {
            match error_out {
                Some(slot) => {
                    *slot = err_to_tcstring(e);
                },
                None => {},
            }
            err_value
        },
    }
}

/// Runs `f` and tells the caller of its outcome, as [`report`] does.
pub fn wrap<T, F>(f: F, error_out: Option<&mut TCString<'static>>, err_value: T) -> (r: T) where
    F: FnOnce() -> Result<T, String>,

    requires
        f.requires(()),
    ensures
        exists|outcome: Result<T, String>|
            f.ensures((), outcome) && reported(
                outcome,
                err_value,
                r,
                match error_out {
                    Some(slot) => Some(final(slot)@),
                    None => None,
                },
            ),
{
    report(f(), error_out, err_value)
}

/// The pointer that is handed out for a connection, or the error as it is.
pub open spec fn handed_out<S>(outcome: Result<S, String>) -> Result<
    Option<Box<TCServer<S>>>,
    String,
> {
    match outcome {
        Ok(server) => Ok(Some(Box::new(TCServer::holding(server)))),
        Err(e) => Err(e),
    }
}

/// The configuration of a local server whose directory `server_dir` names:
/// the path is the content of the string, byte for byte.
pub open spec fn local_config(server_dir: StringModel) -> ServerConfigModel {
    ServerConfigModel::Local { server_dir: server_dir.content()->0 }
}

/// Makes a server that works on the local disk, and hands out the pointer
/// that owns it. `into_server` opens the server from its configuration.
/// `server_dir` is consumed and must not be Null.
///
/// On failure the result is the NULL pointer, and the error's message is
/// written to `error_out` where the caller gave one; on success the Null
/// string is written there.
pub fn tc_server_new_local<S, F>(
    server_dir: TCString<'_>,
    error_out: Option<&mut TCString<'static>>,
    into_server: F,
) -> (r: Option<Box<TCServer<S>>>) where F: FnOnce(ServerConfig) -> Result<S, String>
    requires
        !(server_dir@ is Null),
        forall|config: ServerConfig|
            config@ == local_config(server_dir@) ==> into_server.requires((config,)),
    ensures
        exists|config: ServerConfig, outcome: Result<S, String>|
            config@ == local_config(server_dir@) && into_server.ensures((config,), outcome)
                && reported(
                handed_out(outcome),
                None,
                r,
                match error_out {
                    Some(slot) => Some(final(slot)@),
                    None => None,
                },
            ),
{
    let ghost expected = local_config(server_dir@);
    let make = || -> (made: Result<Option<Box<TCServer<S>>>, String>)
        requires
            !(server_dir@ is Null),
            forall|config: ServerConfig|
                config@ == expected ==> into_server.requires((config,)),
        ensures
            exists|config: ServerConfig, outcome: Result<S, String>|
                config@ == expected && into_server.ensures((config,), outcome) && made
                    == handed_out(outcome),
        {
            let path = match server_dir.as_bytes() {
                Some(bytes) => slice_to_vec(bytes),
                None => vstd::pervasive::unreached(),
            };
            let server_config = ServerConfig::Local { server_dir: path };
            assert(server_config@ == expected);
            match into_server(server_config) {
                Ok(server) => Ok(TCServer::return_ptr(TCServer::from(server))),
                Err(e) => Err(e),
            }
        };
    wrap(make, error_out, None)
}

/// The configuration of a remote server: the origin is the text that the
/// content of `origin` encodes, the secret is the content of
/// `encryption_secret`, byte for byte.
pub open spec fn remote_config(
    origin: StringModel,
    client_key: TCUuid,
    encryption_secret: StringModel,
) -> ServerConfigModel {
    ServerConfigModel::Remote {
        origin: decode_utf8(origin.content()->0),
        client_key: client_key.bytes@,
        encryption_secret: encryption_secret.content()->0,
    }
}

/// Makes a server that is reached over the network, and hands out the
/// pointer that owns it. `into_server` opens the server from its
/// configuration. `origin` and `encryption_secret` are consumed; `origin`
/// must not be Null, and `encryption_secret` must not be Null where the
/// origin is valid text.
///
/// An origin that is not valid UTF-8 is a failure, and `into_server` is not
/// called. On failure the result is the NULL pointer, and the error's
/// message is written to `error_out` where the caller gave one; on success
/// the Null string is written there.
pub fn tc_server_new_remote<S, F>(
    origin: TCString<'_>,
    client_key: TCUuid,
    encryption_secret: TCString<'_>,
    error_out: Option<&mut TCString<'static>>,
    into_server: F,
) -> (r: Option<Box<TCServer<S>>>) where F: FnOnce(ServerConfig) -> Result<S, String>
    requires
        !(origin@ is Null),
        valid_utf8(origin@.content()->0) ==> !(encryption_secret@ is Null),
        valid_utf8(origin@.content()->0) ==> forall|config: ServerConfig|
            config@ == remote_config(origin@, client_key, encryption_secret@)
                ==> into_server.requires((config,)),
    ensures
        !valid_utf8(origin@.content()->0) ==> r is None && (error_out matches Some(slot)
            ==> final(slot)@ == StringModel::String("value contains invalid UTF-8 bytes"@)),
        valid_utf8(origin@.content()->0) ==> exists|
            config: ServerConfig,
            outcome: Result<S, String>,
        |
            config@ == remote_config(origin@, client_key, encryption_secret@)
                && into_server.ensures((config,), outcome) && reported(
                handed_out(outcome),
                None,
                r,
                match error_out {
                    Some(slot) => Some(final(slot)@),
                    None => None,
                },
            ),
{
    let ghost origin_ok = valid_utf8(origin@.content()->0);
    let ghost expected = remote_config(origin@, client_key, encryption_secret@);
    let make = || -> (made: Result<Option<Box<TCServer<S>>>, String>)
        requires
            !(origin@ is Null),
            origin_ok ==> !(encryption_secret@ is Null),
            origin_ok ==> forall|config: ServerConfig|
                config@ == expected ==> into_server.requires((config,)),
        ensures
            !origin_ok ==> (made matches Err(e) && e@ == "value contains invalid UTF-8 bytes"@),
            origin_ok ==> exists|config: ServerConfig, outcome: Result<S, String>|
                config@ == expected && into_server.ensures((config,), outcome) && made
                    == handed_out(outcome),
        {
            match origin.into_string() {
                Err(e) => Err(e.message()),
                Ok(None) => vstd::pervasive::unreached(),
                Ok(Some(origin)) => {
                    let client_key = TCUuid::val_from_arg(client_key);
                    let encryption_secret = match encryption_secret.as_bytes() {
                        Some(bytes) => slice_to_vec(bytes),
                        None => vstd::pervasive::unreached(),
                    };
                    let server_config = ServerConfig::Remote {
                        origin,
                        client_key,
                        encryption_secret,
                    };
                    assert(server_config@ == expected);
                    match into_server(server_config) {
                        Ok(server) => Ok(TCServer::return_ptr(TCServer::from(server))),
                        Err(e) => Err(e),
                    }
                },
            }
        };
    wrap(make, error_out, None)
}

/// Frees a server: takes back the pointer that was handed out for it and
/// releases the connection. The pointer must not be NULL.
pub fn tc_server_free<S>(server: Option<Box<TCServer<S>>>)
    requires
        server is Some,
{
    let _server = TCServer::take_from_ptr_arg(server);
}

} // verus!
