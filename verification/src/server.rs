//! What the daemon does with the first message of a connection.

use vstd::prelude::*;
use crate::error::HyprvisorError;
use crate::message::{HyprvisorMessage, MessageType, MessageView};
use crate::opts::CommandOpts;
use crate::registry::{spec_insert, Registry};
use crate::subscription::ClientInfo;

verus! {

/// Milliseconds the daemon waits after it answered a kill command, so that
/// the answer can leave the socket.
pub const SHUTDOWN_DELAY: u64 = 100;

/// What the daemon tells a client in words.
#[derive(Debug)]
pub enum ServerResponse {
    Success(String),
    Failure(String),
}

/// What a client asks for.
#[derive(Clone, Copy, Debug, PartialEq, Eq, Structural)]
pub enum Request {
    /// Answer the command and close the connection.
    Command(CommandOpts),
    /// Send the current snapshot of the feed and keep the writer.
    Subscribe(ClientInfo),
}

/// The command that a command message carries: its payload has to be one
/// byte that names a command.
pub open spec fn spec_process_command(message: MessageView) -> Result<CommandOpts, HyprvisorError> {
    if message.header != 1 || message.payload.len() != 1 {
        Err(HyprvisorError::InvalidMessage)
    } else {
        match CommandOpts::spec_from_byte(message.payload[0]) {
            Ok(command) => Ok(command),
            Err(_) => Err(HyprvisorError::InvalidMessage),
        }
    }
}

/// The subscription that a subscription message carries: its payload has to
/// be five bytes, and the feed it names has to exist.
pub open spec fn spec_register_client(message: MessageView) -> Result<ClientInfo, HyprvisorError> {
    match ClientInfo::spec_decode(message.payload) {
        Ok(info) => if info.subscription_id.spec_is_feed() {
            Ok(info)
        } else {
            Err(HyprvisorError::InvalidSubscription)
        },
        Err(error) => Err(error),
    }
}

/// What the first message of a connection asks for. A message whose header
/// does not match its payload is rejected, and so is a response: clients do
/// not send responses.
pub open spec fn spec_handle_connection(message: MessageView) -> Result<Request, HyprvisorError> {
    if !message.is_valid() {
        Err(HyprvisorError::InvalidMessage)
    } else {
        match message.message_type {
            MessageType::Command => match spec_process_command(message) {
                Ok(command) => Ok(Request::Command(command)),
                Err(error) => Err(error),
            },
            MessageType::Subscription => match spec_register_client(message) {
                Ok(info) => Ok(Request::Subscribe(info)),
                Err(error) => Err(error),
            },
            MessageType::Response => Err(HyprvisorError::InvalidMessage),
        }
    }
}

/// The text that answers a command.
pub open spec fn spec_command_answer(command: CommandOpts) -> Seq<char> {
    match command {
        CommandOpts::Ping => "Pong"@,
        CommandOpts::Kill => "Server is shutting down..."@,
    }
}

/// Reads the command out of a command message.
pub fn process_command(message: &HyprvisorMessage) -> (result: Result<CommandOpts, HyprvisorError>)
    ensures
        result == spec_process_command(message@),
{
    if message.header != 1 || message.payload.len() != 1 {
        return Err(HyprvisorError::InvalidMessage);
    }
    match CommandOpts::try_from(message.payload[0]) {
        Ok(command) => Ok(command),
        Err(_) => Err(HyprvisorError::InvalidMessage),
    }
}

/// Reads the subscription out of a subscription message.
pub fn register_client(message: &HyprvisorMessage) -> (result: Result<ClientInfo, HyprvisorError>)
    ensures
        result == spec_register_client(message@),
{
    let info = match ClientInfo::decode(message.payload.as_slice()) {
        Ok(info) => info,
        Err(error) => {
            return Err(error);
        },
    };
    if info.subscription_id.is_feed() {
        Ok(info)
    } else {
        Err(HyprvisorError::InvalidSubscription)
    }
}

/// Puts the writer of a client into the table, under the feed and the
/// process id that its subscription message names. A message that is no
/// subscription to a feed leaves the table as it is, and the writer is
/// dropped.
pub fn subscribe_client<W>(
    registry: &mut Registry<W>,
    message: &HyprvisorMessage,
    writer: W,
) -> (result: Result<ClientInfo, HyprvisorError>)
    ensures
        result == spec_register_client(message@),
        final(registry)@ == match spec_register_client(message@) {
            Ok(info) => spec_insert(
                old(registry)@,
                info.subscription_id,
                info.process_id,
                writer,
            ),
            Err(_) => old(registry)@,
        },
{
    match register_client(message) {
        Ok(info) => {
            registry.insert(info.subscription_id, info.process_id, writer);
            Ok(info)
        },
        Err(error) => Err(error),
    }
}

/// Tells what the first message of a connection asks for.
pub fn handle_connection(message: &HyprvisorMessage) -> (result: Result<Request, HyprvisorError>)
    ensures
        result == spec_handle_connection(message@),
{
    if !message.is_valid() {
        return Err(HyprvisorError::InvalidMessage);
    }
    match message.message_type {
        MessageType::Command => match process_command(message) {
            Ok(command) => Ok(Request::Command(command)),
            Err(error) => Err(error),
        },
        MessageType::Subscription => match register_client(message) {
            Ok(info) => Ok(Request::Subscribe(info)),
            Err(error) => Err(error),
        },
        MessageType::Response => Err(HyprvisorError::InvalidMessage),
    }
}

/// The answer to a command, and what the daemon does after it is sent.
#[derive(Debug)]
pub struct CommandReply {
    pub message: HyprvisorMessage,
    /// After a kill command: milliseconds to wait before the process ends.
    pub shutdown_after: Option<u64>,
}

/// Builds the answer to a command.
pub fn command_reply(command: CommandOpts) -> (reply: CommandReply)
    ensures
        reply.message.message_type == MessageType::Response,
        reply.message.payload@ == vstd::utf8::encode_utf8(spec_command_answer(command)),
        reply.message@.is_valid(),
        reply.shutdown_after == match command {
            CommandOpts::Ping => None::<u64>,
            CommandOpts::Kill => Some(SHUTDOWN_DELAY),
        },
{
    match command {
        CommandOpts::Ping => CommandReply {
            message: HyprvisorMessage::text_response("Pong"),
            shutdown_after: None,
        },
        CommandOpts::Kill => CommandReply {
            message: HyprvisorMessage::text_response("Server is shutting down..."),
            shutdown_after: Some(SHUTDOWN_DELAY),
        },
    }
}

/// What the daemon does before it listens.
#[derive(Clone, Copy, Debug, PartialEq, Eq, Structural)]
pub enum Bootstrap {
    /// Nothing is in the way: bind the socket.
    Bind,
    /// A socket is left over from a daemon that is gone: remove it, then
    /// bind.
    RemoveStaleSocket,
}

/// Decides how the daemon starts. A daemon that answers a ping is running
/// already; a socket file without such a daemon is stale.
pub fn start_server(daemon_answers: bool, socket_exists: bool) -> (result: Result<
    Bootstrap,
    HyprvisorError,
>)
    ensures
        result == if daemon_answers {
            Err::<Bootstrap, HyprvisorError>(HyprvisorError::DaemonRunning)
        } else if socket_exists {
            Ok::<Bootstrap, HyprvisorError>(Bootstrap::RemoveStaleSocket)
        } else {
            Ok::<Bootstrap, HyprvisorError>(Bootstrap::Bind)
        },
{
    if daemon_answers {
        Err(HyprvisorError::DaemonRunning)
    } else if socket_exists {
        Ok(Bootstrap::RemoveStaleSocket)
    } else {
        Ok(Bootstrap::Bind)
    }
}

/// Every command and every subscription to a feed that a client builds is
/// understood by the daemon as what the client meant.
pub proof fn lemma_requests_are_understood(command: CommandOpts, info: ClientInfo)
    requires
        info.subscription_id.spec_is_feed(),
    ensures
        spec_handle_connection(
            MessageView {
                message_type: MessageType::Command,
                header: 1,
                payload: seq![command.spec_to_byte()],
            },
        ) == Ok::<Request, HyprvisorError>(Request::Command(command)),
        spec_handle_connection(
            MessageView {
                message_type: MessageType::Subscription,
                header: 5,
                payload: info.spec_encode(),
            },
        ) == Ok::<Request, HyprvisorError>(Request::Subscribe(info)),
{
    crate::subscription::lemma_client_info_roundtrip(info);
}

} // verus!
