//! The MySQL front of an executor: what it tells a client about itself, and the life of
//! its listener.

use vstd::prelude::*;
use vstd::string::StringExecFns;

use crate::base::stoppable::ServiceState;
use crate::error::{HetuError, HetuErrorView};
use crate::query::config::Config;
use crate::query::utils::query_results_writer::{is_answer, Block, DFQueryResultWriter, Reply};
use crate::text::{bytes_equal, signed_decimal, to_signed_decimal};

verus! {

/// The bytes from which the handshake scramble is made.
pub open spec fn scramble_seed() -> Seq<u8> {
    seq![
        59u8, 88u8, 44u8, 112u8, 111u8, 95u8, 107u8, 125u8, 62u8, 111u8, 54u8, 94u8, 87u8, 122u8,
        33u8, 47u8, 107u8, 77u8, 125u8, 78u8,
    ]
}

/// A byte of the scramble: the byte of the seed, moved up by one where the seed holds a
/// zero byte or a dollar sign, which a scramble must not hold.
pub open spec fn scramble_byte(seed: u8) -> u8 {
    if seed == 0 || seed == 36 {
        (seed + 1) as u8
    } else {
        seed
    }
}

/// The name of the user that may log in.
pub open spec fn root_user() -> Seq<u8> {
    seq![114u8, 111u8, 111u8, 116u8]
}

/// What the MySQL front answers for every connection.
#[derive(Clone, Copy, Debug, PartialEq, Eq, Structural)]
pub struct Backend {}

impl Backend {
    /// Answers a query from what the engine gave for it: the batches of its result, or the
    /// cause for which it failed. A result is answered as the writer answers it, with the
    /// extra information `ExtraInfo`; a failure is answered with the line of the engine's
    /// error. A writer that has answered before gives `Nothing`.
    pub fn on_query(
        &self,
        writer: &mut DFQueryResultWriter,
        outcome: Result<Vec<Block>, String>,
    ) -> (reply: Reply)
        ensures
            !final(writer).is_unused(),
            !old(writer).is_unused() ==> reply is Nothing,
            old(writer).is_unused() ==> match outcome {
                Ok(blocks) => is_answer(reply, blocks@, "ExtraInfo"@),
                Err(cause) => reply matches Reply::Error { message } && message@
                    == HetuErrorView::DataFusionError(cause@).message(),
            },
    {
        match outcome {
            Ok(blocks) => writer.write(Ok((blocks, String::from_str("ExtraInfo")))),
            Err(cause) => writer.write(Err(HetuError::DataFusionError(cause))),
        }
    }

    /// Whether a login is accepted: exactly where the user name is `root`. The plugin,
    /// the salt and the proof that the client sent are not looked at.
    pub fn authenticate(
        &self,
        _auth_plugin: &str,
        username: &[u8],
        _salt: &[u8],
        _auth_data: &[u8],
    ) -> (accepted: bool)
        ensures
            accepted == (username@ == root_user()),
    {
        let root: [u8; 4] = [114, 111, 111, 116];
        assert(root@ =~= root_user());
        bytes_equal(username, root.as_slice())
    }

    /// The version that the server announces.
    pub fn version(&self) -> (version: &'static str)
        ensures
            version@
                == "5.7.25-HetuDB-v0.1.0-alpha HetuDB Server (Apache License 2.0) \nCommunity Edition, MySQL 5.7 compatiible"@,
    {
        "5.7.25-HetuDB-v0.1.0-alpha HetuDB Server (Apache License 2.0) \nCommunity Edition, MySQL 5.7 compatiible"
    }

    /// The id that every connection is given.
    pub fn connect_id(&self) -> (id: u32)
        ensures
            id == 8,
    {
        8
    }

    /// The authentication plugin that the server offers first.
    pub fn default_auth_plugin(&self) -> (plugin: &'static str)
        ensures
            plugin@ == "mysql_native_password"@,
    {
        "mysql_native_password"
    }

    /// The authentication plugin for a user: the same for every user.
    pub fn auth_plugin_for_username(&self, _user: &[u8]) -> (plugin: &'static str)
        ensures
            plugin@ == "mysql_native_password"@,
    {
        "mysql_native_password"
    }

    /// The scramble of the handshake: twenty bytes, none of them a zero byte or a dollar
    /// sign.
    pub fn salt(&self) -> (scramble: [u8; 20])
        ensures
            forall|i: int| 0 <= i < 20 ==> scramble@[i] == scramble_byte(scramble_seed()[i]),
            forall|i: int| 0 <= i < 20 ==> scramble@[i] != 0 && scramble@[i] != 36,
    {
        let bs: [u8; 20] = [
            59, 88, 44, 112, 111, 95, 107, 125, 62, 111, 54, 94, 87, 122, 33, 47, 107, 77, 125, 78,
        ];
        assert(bs@ =~= scramble_seed());
        let mut scramble: [u8; 20] = [0;20];
        let mut i: usize = 0;
        while i < 20
            invariant
                i <= 20,
                bs@ == scramble_seed(),
                forall|j: int| 0 <= j < i ==> scramble@[j] == scramble_byte(bs@[j]),
                forall|j: int| 0 <= j < i ==> scramble@[j] != 0 && scramble@[j] != 36,
            decreases 20 - i,
        {
            let mut byte = bs[i];
            if byte == 0 || byte == 36 {
                byte = byte + 1;
            }
            scramble[i] = byte;
            i += 1;
        }
        scramble
    }
}

/// What the caller of [`MySQLHandler::shutdown`] has to do.
#[derive(Clone, Copy, Debug, PartialEq, Eq, Structural)]
pub enum Shutdown {
    /// Nothing: the listener goes on, and its socket stays bound.
    Nothing,
    /// Abort the listening stream, then wait until the accept loop has ended.
    AbortAndJoin,
}

/// The listener of the MySQL front. It is started once and stopped once. A start has two
/// steps: the handler gives the address, and the caller reports the outcome of binding it.
/// Only a bound socket makes the handler `Started`: a start that failed leaves it `Created`.
pub struct MySQLHandler {
    hostname: String,
    port: i32,
    state: ServiceState,
}

impl MySQLHandler {
    /// The host on which the handler listens.
    pub closed spec fn hostname(&self) -> Seq<char> {
        self.hostname@
    }

    /// The port on which the handler listens.
    pub closed spec fn port(&self) -> i32 {
        self.port
    }

    /// Where the handler stands in its life.
    pub closed spec fn state(&self) -> ServiceState {
        self.state
    }

    /// The address on which the handler listens, as host, colon and port.
    pub open spec fn listening(&self) -> Seq<char> {
        self.hostname() + seq![':'] + signed_decimal(self.port() as int)
    }

    /// What a start reports where the handler is not `Created`.
    pub open spec fn start_refusal(state: ServiceState) -> Seq<char> {
        match state {
            ServiceState::Stopped => "MySQLHandler already stopped."@,
            _ => "MySQLHandler already running."@,
        }
    }

    /// What a shutdown reports where the handler is not `Started`.
    pub open spec fn shutdown_refusal(state: ServiceState) -> Seq<char> {
        match state {
            ServiceState::Created => "MySQLHandler not started."@,
            _ => "MySQLHandler already stopped."@,
        }
    }

    /// A handler for the host and the port that the configuration names.
    pub fn create(conf: Config) -> (handler: MySQLHandler)
        ensures
            handler.hostname() == conf.mysql_handler_host@,
            handler.port() == conf.mysql_handler_port,
            handler.state() == ServiceState::Created,
    {
        MySQLHandler {
            hostname: conf.mysql_handler_host,
            port: conf.mysql_handler_port,
            state: ServiceState::Created,
        }
    }

    /// Where the handler stands in its life.
    pub fn current(&self) -> (state: ServiceState)
        ensures
            state == self.state(),
    {
        self.state
    }

    fn address(&self) -> (address: String)
        ensures
            address@ == self.listening(),
    {
        proof {
            reveal_strlit(":");
            assert(":"@ =~= seq![':']);
        }
        let mut address = self.hostname.clone();
        address.append(":");
        let port = to_signed_decimal(self.port as i64);
        address.append(port.as_str());
        address
    }

    /// Begins a start: gives the address to listen on. It succeeds exactly where the
    /// handler is `Created`; a handler that runs, or has stopped, refuses with an internal
    /// error. The handler stays in the state it is in: the caller binds the address and
    /// reports a bound socket with [`MySQLHandler::accepting`] or a failure with
    /// [`MySQLHandler::bind_failed`].
    pub fn start(&mut self) -> (r: Result<String, HetuError>)
        ensures
            final(self).hostname() == old(self).hostname(),
            final(self).port() == old(self).port(),
            final(self).state() == old(self).state(),
            match r {
                Ok(address) => old(self).state() == ServiceState::Created && address@ == old(
                    self,
                ).listening(),
                Err(e) => old(self).state() != ServiceState::Created && e@
                    == HetuErrorView::Internal(Self::start_refusal(old(self).state())),
            },
    {
        match self.state {
            ServiceState::Created => Ok(self.address()),
            ServiceState::Started => Err(
                HetuError::Internal(String::from_str("MySQLHandler already running.")),
            ),
            ServiceState::Stopped => Err(
                HetuError::Internal(String::from_str("MySQLHandler already stopped.")),
            ),
        }
    }

    /// Ends a start that succeeded: the address is bound and the accept loop runs. It
    /// makes a `Created` handler `Started`. In any other state it is refused as a start
    /// is, and the handler stays as it is.
    pub fn accepting(&mut self) -> (r: Result<(), HetuError>)
        ensures
            final(self).hostname() == old(self).hostname(),
            final(self).port() == old(self).port(),
            match r {
                Ok(()) => old(self).state() == ServiceState::Created && final(self).state()
                    == ServiceState::Started,
                Err(e) => old(self).state() != ServiceState::Created && final(self).state()
                    == old(self).state() && e@ == HetuErrorView::Internal(
                    Self::start_refusal(old(self).state()),
                ),
            },
    {
        match self.state {
            ServiceState::Created => {
                self.state = ServiceState::Started;
                Ok(())
            },
            ServiceState::Started => Err(
                HetuError::Internal(String::from_str("MySQLHandler already running.")),
            ),
            ServiceState::Stopped => Err(
                HetuError::Internal(String::from_str("MySQLHandler already stopped.")),
            ),
        }
    }

    /// Ends a start that failed: gives the error of the start, an internal error that
    /// holds the address, a blank and the cause for which the address could not be bound.
    /// The handler is not changed by it, so a handler whose start failed is still
    /// `Created` and can be started again.
    pub fn bind_failed(&self, cause: &str) -> (e: HetuError)
        ensures
            e@ == HetuErrorView::Internal(self.listening() + seq![' '] + cause@),
    {
        proof {
            reveal_strlit(" ");
            assert(" "@ =~= seq![' ']);
        }
        let mut text = self.address();
        text.append(" ");
        text.append(cause);
        HetuError::Internal(text)
    }

    /// Shuts the handler down. It succeeds exactly where the handler is `Started`; a
    /// handler that was never started, or has stopped, refuses with an internal error and
    /// stays as it is. A graceful shutdown has the caller abort the listening stream and
    /// wait for the end of the accept loop, and makes the handler `Stopped`. A shutdown
    /// that is not graceful does nothing: the handler stays `Started`, the listener goes
    /// on, and its socket stays bound.
    pub fn shutdown(&mut self, graceful: bool) -> (r: Result<Shutdown, HetuError>)
        ensures
            final(self).hostname() == old(self).hostname(),
            final(self).port() == old(self).port(),
            match r {
                Ok(action) => {
                    &&& old(self).state() == ServiceState::Started
                    &&& action == if graceful {
                        Shutdown::AbortAndJoin
                    } else {
                        Shutdown::Nothing
                    }
                    &&& final(self).state() == if graceful {
                        ServiceState::Stopped
                    } else {
                        ServiceState::Started
                    }
                },
                Err(e) => {
                    &&& old(self).state() != ServiceState::Started
                    &&& final(self).state() == old(self).state()
                    &&& e@ == HetuErrorView::Internal(Self::shutdown_refusal(old(self).state()))
                },
            },
    {
        match self.state {
            ServiceState::Started => {
                if graceful {
                    self.state = ServiceState::Stopped;
                    Ok(Shutdown::AbortAndJoin)
                } else {
                    Ok(Shutdown::Nothing)
                }
            },
            ServiceState::Created => Err(
                HetuError::Internal(String::from_str("MySQLHandler not started.")),
            ),
            ServiceState::Stopped => Err(
                HetuError::Internal(String::from_str("MySQLHandler already stopped.")),
            ),
        }
    }
}

} // verus!
