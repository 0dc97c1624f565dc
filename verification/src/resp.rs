//! What this library has from the `redis` crate: the replies, errors, commands and
//! batches it reads or builds, each reduced to the plain facts the rules look at.

use redis::Value;
use vstd::pervasive::unreached;
use vstd::prelude::*;
use vstd::string::StringExecFns;
#[allow(unused_imports)]
use vstd::utf8::encode_utf8;

#[allow(unused_imports)]
use crate::text::{holds, lemma_holds};

verus! {

// ---------------------------------------------------------------------------
// Replies
// ---------------------------------------------------------------------------

/// A reply as the `redis` crate hands it over. Opaque here; see [`read_reply`].
#[verifier::external_type_specification]
#[verifier::external_body]
pub struct ExValue(redis::Value);

/// What a reply holds, as far as any rule looks into one.
#[derive(Debug, PartialEq, Eq)]
pub enum Reply {
    /// No value.
    Nil,
    /// An integer.
    Int(i64),
    /// The status `OK`.
    Okay,
    /// A status line.
    SimpleString(String),
    /// An array, element by element.
    Array(Vec<ReplyItem>),
    /// Anything else.
    Other,
}

/// What an element of an array reply holds.
#[derive(Debug, Clone, Copy, PartialEq, Eq)]
pub enum ReplyItem {
    /// An integer.
    Int(i64),
    /// Anything else.
    Other,
}

/// The mathematical form of a [`Reply`].
pub enum ReplyView {
    Nil,
    Int(i64),
    Okay,
    SimpleString(Seq<char>),
    Array(Seq<ReplyItem>),
    Other,
}

impl View for Reply {
    type V = ReplyView;

    open spec fn view(&self) -> ReplyView {
        match *self {
            Reply::Nil => ReplyView::Nil,
            Reply::Int(value) => ReplyView::Int(value),
            Reply::Okay => ReplyView::Okay,
            Reply::SimpleString(status) => ReplyView::SimpleString(status@),
            Reply::Array(items) => ReplyView::Array(items@),
            Reply::Other => ReplyView::Other,
        }
    }
}

/// The texts of a vector of strings.
pub open spec fn texts(strings: Seq<String>) -> Seq<Seq<char>> {
    Seq::new(strings.len(), |i: int| strings[i]@)
}

/// The contents of a vector of byte strings.
pub open spec fn byte_strings(strings: Seq<Vec<u8>>) -> Seq<Seq<u8>> {
    Seq::new(strings.len(), |i: int| strings[i]@)
}

/// The two integers of an array that is just that.
pub open spec fn pair(items: Seq<ReplyItem>) -> Option<(i64, i64)> {
    if items.len() == 2 && items[0] is Int && items[1] is Int {
        Some((items[0]->Int_0, items[1]->Int_0))
    } else {
        None
    }
}

/// Read an array as two integers, if it is just that.
pub(crate) fn pair_of(items: &Vec<ReplyItem>) -> (integers: Option<(i64, i64)>)
    ensures
        integers == pair(items@),
{
    if items.len() != 2 {
        return None;
    }
    match (items[0], items[1]) {
        (ReplyItem::Int(first), ReplyItem::Int(second)) => Some((first, second)),
        _ => None,
    }
}

/// Which variant a reply of the `redis` crate is, with the fields that some rule reads.
#[derive(Debug, PartialEq, Eq)]
pub enum Shape {
    Nil,
    Int(i64),
    BulkString,
    Array,
    SimpleString(String),
    Okay,
    MapReply,
    Attribute,
    SetReply,
    Double,
    Boolean,
    VerbatimString,
    BigNumber,
    Push,
    ServerError,
}

/// The mathematical form of a [`Shape`].
pub enum ShapeView {
    Nil,
    Int(i64),
    BulkString,
    Array,
    SimpleString(Seq<char>),
    Okay,
    MapReply,
    Attribute,
    SetReply,
    Double,
    Boolean,
    VerbatimString,
    BigNumber,
    Push,
    ServerError,
}

impl View for Shape {
    type V = ShapeView;

    open spec fn view(&self) -> ShapeView {
        match *self {
            Shape::Nil => ShapeView::Nil,
            Shape::Int(value) => ShapeView::Int(value),
            Shape::BulkString => ShapeView::BulkString,
            Shape::Array => ShapeView::Array,
            Shape::SimpleString(status) => ShapeView::SimpleString(status@),
            Shape::Okay => ShapeView::Okay,
            Shape::MapReply => ShapeView::MapReply,
            Shape::Attribute => ShapeView::Attribute,
            Shape::SetReply => ShapeView::SetReply,
            Shape::Double => ShapeView::Double,
            Shape::Boolean => ShapeView::Boolean,
            Shape::VerbatimString => ShapeView::VerbatimString,
            Shape::BigNumber => ShapeView::BigNumber,
            Shape::Push => ShapeView::Push,
            Shape::ServerError => ShapeView::ServerError,
        }
    }
}

/// Which variant a reply of the `redis` crate is.
pub uninterp spec fn reply_shape(value: redis::Value) -> ShapeView;

/// Tells the variants of `redis::Value` apart: each becomes the variant named after it,
/// with the integer or the status it holds. What comes out depends on the value alone.
#[verifier::external_body]
fn shape_of(value: &redis::Value) -> (shape: Shape)
    ensures
        shape@ == reply_shape(*value),
{
    match value {
        Value::Nil => Shape::Nil,
        Value::Int(value) => Shape::Int(*value),
        Value::BulkString(_) => Shape::BulkString,
        Value::Array(_) => Shape::Array,
        Value::SimpleString(status) => Shape::SimpleString(status.clone()),
        Value::Okay => Shape::Okay,
        Value::Map(_) => Shape::MapReply,
        Value::Attribute { .. } => Shape::Attribute,
        Value::Set(_) => Shape::SetReply,
        Value::Double(_) => Shape::Double, Value::Boolean(_) => Shape::Boolean,
        Value::VerbatimString { .. } => Shape::VerbatimString,
        Value::BigNumber(_) => Shape::BigNumber, Value::Push { .. } => Shape::Push,
        Value::ServerError(_) => Shape::ServerError,
    }
}

/// The elements of a reply of the `redis` crate that is a sequence.
pub uninterp spec fn reply_items(value: redis::Value) -> Seq<redis::Value>;

/// Calls `redis::Value::as_sequence`, which hands out the elements of an array or a set
/// in order, takes nil for an empty sequence, and has nothing for any other reply.
#[verifier::external_body]
fn items_of(value: &redis::Value) -> (items: Option<&[redis::Value]>)
    ensures
        items matches Some(items) ==> items@ == reply_items(*value),
        items is Some <==> (reply_shape(*value) is Array || reply_shape(*value) is SetReply
            || reply_shape(*value) is Nil),
        items is Some && reply_shape(*value) is Nil ==> items->0@.len() == 0,
{
    value.as_sequence()
}

/// What an element of an array reply of the `redis` crate holds.
pub open spec fn item_content(value: redis::Value) -> ReplyItem {
    match reply_shape(value) {
        ShapeView::Int(value) => ReplyItem::Int(value),
        _ => ReplyItem::Other,
    }
}

/// What the elements of an array reply of the `redis` crate hold.
pub open spec fn items_content(items: Seq<redis::Value>) -> Seq<ReplyItem> {
    items.map_values(|item: redis::Value| item_content(item))
}

/// What a reply of the `redis` crate holds.
pub open spec fn reply_content(value: redis::Value) -> ReplyView {
    match reply_shape(value) {
        ShapeView::Nil => ReplyView::Nil,
        ShapeView::Int(value) => ReplyView::Int(value),
        ShapeView::Okay => ReplyView::Okay,
        ShapeView::SimpleString(status) => ReplyView::SimpleString(status),
        ShapeView::Array => ReplyView::Array(items_content(reply_items(value))),
        _ => ReplyView::Other,
    }
}

/// Reduce a reply to what some rule looks at.
pub(crate) fn read_reply(value: &redis::Value) -> (reply: Reply)
    ensures
        reply@ == reply_content(*value),
{
    match shape_of(value) {
        Shape::Nil => Reply::Nil,
        Shape::Int(value) => Reply::Int(value),
        Shape::Okay => Reply::Okay,
        Shape::SimpleString(status) => Reply::SimpleString(status),
        Shape::Array => match items_of(value) {
            Some(items) => Reply::Array(read_items(items)),
            None => unreached(),
        },
        _ => Reply::Other,
    }
}

fn read_items(items: &[redis::Value]) -> (contents: Vec<ReplyItem>)
    ensures
        contents@ == items_content(items@),
{
    let mut contents: Vec<ReplyItem> = Vec::new();
    let mut at: usize = 0;
    while at < items.len()
        invariant
            at <= items@.len(),
            contents@ =~= items_content(items@.take(at as int)),
        decreases items@.len() - at,
    {
        contents.push(
            match shape_of(&items[at]) {
                Shape::Int(value) => ReplyItem::Int(value),
                _ => ReplyItem::Other,
            },
        );
        at = at + 1;
    }
    assert(items@.take(at as int) =~= items@);
    contents
}

/// How the `redis` crate renders a reply for debugging.
pub uninterp spec fn reply_rendering(value: redis::Value) -> Seq<char>;

/// The `Debug` rendering of a `redis::Value`, which depends on the value alone.
#[verifier::external_body]
pub(crate) fn render_reply(value: &redis::Value) -> (rendering: String)
    ensures
        rendering@ == reply_rendering(*value),
{
    format!("{value:?}")
}

/// What `redis::from_redis_value` makes of a reply read as a list of strings: the
/// strings, or the text of its error.
pub uninterp spec fn reply_strings(value: redis::Value) -> Result<Seq<Seq<char>>, Seq<char>>;

/// Calls `redis::from_redis_value` for a `Vec<String>`. The outcome depends on the
/// value alone, and a failure is a type error.
#[verifier::external_body]
pub(crate) fn read_strings(value: &redis::Value) -> (strings: Result<
    Vec<String>,
    redis::RedisError,
>)
    ensures
        match strings {
            Ok(strings) => reply_strings(*value) == Ok::<Seq<Seq<char>>, Seq<char>>(
                texts(strings@),
            ),
            Err(error) => {
                &&& reported_kind(error) == ErrorKind::TypeError
                &&& reply_strings(*value) == Err::<Seq<Seq<char>>, Seq<char>>(
                    reported_message(error),
                )
            },
        },
{
    redis::from_redis_value(value)
}

/// What a list of strings, or the text of why there is none, is in mathematical form.
pub open spec fn strings_view(strings: Result<Vec<String>, String>) -> Result<
    Seq<Seq<char>>,
    Seq<char>,
> {
    match strings {
        Ok(strings) => Ok(texts(strings@)),
        Err(error) => Err(error@),
    }
}

// ---------------------------------------------------------------------------
// Errors
// ---------------------------------------------------------------------------

/// An error of the `redis` crate. Opaque here, and carried through unchanged.
#[verifier::external_type_specification]
#[verifier::external_body]
pub struct ExRedisError(redis::RedisError);

/// The kinds of request error that the rules tell apart.
#[derive(Debug, Clone, Copy, PartialEq, Eq, Structural)]
pub enum ErrorKind {
    /// The server answered with an error.
    ResponseError,
    /// A reply had an unexpected type.
    TypeError,
    /// The server is still loading its data.
    BusyLoadingError,
    /// The client was configured with something it cannot use.
    InvalidClientConfig,
    /// The server asks for the request to be sent again.
    TryAgain,
    /// The connection failed.
    IoError,
    /// The client refused the request, or found its outcome wrong.
    ClientError,
    /// The server is a read-only replica.
    ReadOnly,
    /// The caller asked for something the request cannot do.
    UserOperationError,
    /// The reply does not follow the protocol.
    ProtocolDesync,
    /// Any other kind.
    Other,
}

/// A failed request.
#[derive(Debug)]
pub enum RequestError {
    /// A failure that this library found.
    Raised {
        /// What kind of failure it is.
        kind: ErrorKind,
        /// What failed, in fixed words.
        description: &'static str,
        /// What was wrong this time.
        detail: String,
    },
    /// A failure that the `redis` crate reported.
    Reported(redis::RedisError),
}

/// The mathematical form of a [`RequestError`].
pub enum RequestErrorView {
    Raised { kind: ErrorKind, description: Seq<char>, detail: Seq<char> },
    Reported(redis::RedisError),
}

impl View for RequestError {
    type V = RequestErrorView;

    open spec fn view(&self) -> RequestErrorView {
        match *self {
            RequestError::Raised { kind, description, detail } => RequestErrorView::Raised {
                kind,
                description: description@,
                detail: detail@,
            },
            RequestError::Reported(error) => RequestErrorView::Reported(error),
        }
    }
}

/// A result with its error in mathematical form.
pub open spec fn request_outcome<T>(result: Result<T, RequestError>) -> Result<
    T,
    RequestErrorView,
> {
    match result {
        Ok(value) => Ok(value),
        Err(error) => Err(error@),
    }
}

/// The kind of an error that the `redis` crate reported.
pub uninterp spec fn reported_kind(error: redis::RedisError) -> ErrorKind;

/// Calls `redis::RedisError::kind`, which depends on the error alone. The crate may add
/// kinds, so those that no rule tells apart come out as `Other`.
#[verifier::external_body]
fn kind_of(error: &redis::RedisError) -> (kind: ErrorKind)
    ensures
        kind == reported_kind(*error),
{
    match error.kind() {
        redis::ErrorKind::ResponseError => ErrorKind::ResponseError,
        redis::ErrorKind::TypeError => ErrorKind::TypeError,
        redis::ErrorKind::BusyLoadingError => ErrorKind::BusyLoadingError,
        redis::ErrorKind::InvalidClientConfig => ErrorKind::InvalidClientConfig,
        redis::ErrorKind::TryAgain => ErrorKind::TryAgain,
        redis::ErrorKind::IoError => ErrorKind::IoError,
        redis::ErrorKind::ClientError => ErrorKind::ClientError,
        redis::ErrorKind::ReadOnly => ErrorKind::ReadOnly,
        _ => ErrorKind::Other,
    }
}

/// Calls `redis::RedisError::is_io_error`, which asks for the kind.
#[verifier::external_body]
fn is_io_error_of(error: &redis::RedisError) -> (io: bool)
    ensures
        io == (reported_kind(*error) == ErrorKind::IoError),
{
    error.is_io_error()
}

/// Whether an error that the `redis` crate reported is a dropped connection.
pub uninterp spec fn reported_dropped(error: redis::RedisError) -> bool;

/// Calls `redis::RedisError::is_connection_dropped`, which depends on the error alone.
#[verifier::external_body]
fn is_connection_dropped_of(error: &redis::RedisError) -> (dropped: bool)
    ensures
        dropped == reported_dropped(*error),
{
    error.is_connection_dropped()
}

/// Whether an error that the `redis` crate reported is a time-out.
pub uninterp spec fn reported_timeout(error: redis::RedisError) -> bool;

/// Calls `redis::RedisError::is_timeout`, which depends on the error alone.
#[verifier::external_body]
fn is_timeout_of(error: &redis::RedisError) -> (timeout: bool)
    ensures
        timeout == reported_timeout(*error),
{
    error.is_timeout()
}

/// The message of an error that the `redis` crate reported, unless it is an I/O error.
pub uninterp spec fn reported_message(error: redis::RedisError) -> Seq<char>;

/// The `Display` rendering of a `redis::RedisError`, which depends on the error alone
/// unless it is an I/O error: the operating system words those, so nothing is said of
/// their text.
#[verifier::external_body]
fn message_of(error: &redis::RedisError) -> (message: String)
    ensures
        reported_kind(*error) != ErrorKind::IoError ==> message@ == reported_message(*error),
{
    error.to_string()
}

/// The name of a kind, as it stands in a message.
pub open spec fn kind_name(kind: ErrorKind) -> Seq<char> {
    match kind {
        ErrorKind::ResponseError => "ResponseError"@,
        ErrorKind::TypeError => "TypeError"@,
        ErrorKind::BusyLoadingError => "BusyLoadingError"@,
        ErrorKind::InvalidClientConfig => "InvalidClientConfig"@,
        ErrorKind::TryAgain => "TryAgain"@,
        ErrorKind::IoError => "IoError"@,
        ErrorKind::ClientError => "ClientError"@,
        ErrorKind::ReadOnly => "ReadOnly"@,
        ErrorKind::UserOperationError => "UserOperationError"@,
        ErrorKind::ProtocolDesync => "ProtocolDesync"@,
        ErrorKind::Other => "Other"@,
    }
}

impl ErrorKind {
    /// The name of this kind, as it stands in a message.
    pub fn name(self) -> (name: &'static str)
        ensures
            name@ == kind_name(self),
    {
        match self {
            ErrorKind::ResponseError => "ResponseError",
            ErrorKind::TypeError => "TypeError",
            ErrorKind::BusyLoadingError => "BusyLoadingError",
            ErrorKind::InvalidClientConfig => "InvalidClientConfig",
            ErrorKind::TryAgain => "TryAgain",
            ErrorKind::IoError => "IoError",
            ErrorKind::ClientError => "ClientError",
            ErrorKind::ReadOnly => "ReadOnly",
            ErrorKind::UserOperationError => "UserOperationError",
            ErrorKind::ProtocolDesync => "ProtocolDesync",
            ErrorKind::Other => "Other",
        }
    }
}

impl RequestErrorView {
    /// What kind of failure this is.
    pub open spec fn kind(self) -> ErrorKind {
        match self {
            RequestErrorView::Raised { kind, .. } => kind,
            RequestErrorView::Reported(error) => reported_kind(error),
        }
    }

    /// Whether the connection was dropped.
    pub open spec fn dropped(self) -> bool {
        match self {
            RequestErrorView::Raised { .. } => false,
            RequestErrorView::Reported(error) => reported_dropped(error),
        }
    }

    /// Whether the request timed out.
    pub open spec fn timeout(self) -> bool {
        match self {
            RequestErrorView::Raised { .. } => false,
            RequestErrorView::Reported(error) => reported_timeout(error),
        }
    }

    /// Whether the operating system worded the failure.
    pub open spec fn worded_elsewhere(self) -> bool {
        self is Reported && self.kind() == ErrorKind::IoError
    }

    /// The failure in words: what failed, its kind, and what was wrong this time.
    pub open spec fn message(self) -> Seq<char> {
        match self {
            RequestErrorView::Raised { kind, description, detail } => description + " - "@
                + kind_name(kind) + ": "@ + detail,
            RequestErrorView::Reported(error) => reported_message(error),
        }
    }
}

impl RequestError {
    /// What kind of failure this is.
    pub fn kind(&self) -> (kind: ErrorKind)
        ensures
            kind == self@.kind(),
    {
        match self {
            RequestError::Raised { kind, .. } => *kind,
            RequestError::Reported(error) => kind_of(error),
        }
    }

    /// Whether the connection failed.
    pub fn is_io_error(&self) -> (io: bool)
        ensures
            io == (self@.kind() == ErrorKind::IoError),
    {
        match self {
            RequestError::Raised { kind, .. } => *kind == ErrorKind::IoError,
            RequestError::Reported(error) => is_io_error_of(error),
        }
    }

    /// Whether the connection was dropped.
    pub fn is_connection_dropped(&self) -> (dropped: bool)
        ensures
            dropped == self@.dropped(),
    {
        match self {
            RequestError::Raised { .. } => false,
            RequestError::Reported(error) => is_connection_dropped_of(error),
        }
    }

    /// Whether the request timed out.
    pub fn is_timeout(&self) -> (timeout: bool)
        ensures
            timeout == self@.timeout(),
    {
        match self {
            RequestError::Raised { .. } => false,
            RequestError::Reported(error) => is_timeout_of(error),
        }
    }

    /// The failure in words. What the operating system says of an I/O error is not
    /// fixed here.
    pub fn message(&self) -> (message: String)
        ensures
            !self@.worded_elsewhere() ==> message@ == self@.message(),
    {
        match self {
            RequestError::Raised { kind, description, detail } => {
                let mut message = (*description).to_string();
                message.append(" - ");
                message.append(kind.name());
                message.append(": ");
                message.append(detail.as_str());
                message
            },
            RequestError::Reported(error) => message_of(error),
        }
    }
}

// ---------------------------------------------------------------------------
// Commands
// ---------------------------------------------------------------------------

/// A command of the `redis` crate. Opaque here; see [`command_arguments`].
#[verifier::external_type_specification]
#[verifier::external_body]
pub struct ExCmd(redis::Cmd);

/// The arguments of a command in wire order, its name first. `None` stands for a
/// cursor, which holds no bytes of its own.
pub uninterp spec fn command_arguments(command: redis::Cmd) -> Seq<Option<Seq<u8>>>;

/// Calls `redis::cmd`, which makes a command with its name for its one argument.
#[verifier::external_body]
pub(crate) fn new_command(name: &str) -> (command: redis::Cmd)
    ensures
        command_arguments(command) == seq![Some(encode_utf8(name@))],
{
    redis::cmd(name)
}

/// Calls `redis::Cmd::arg` with a byte string, which appends it as one argument.
#[verifier::external_body]
pub(crate) fn push_argument(command: &mut redis::Cmd, argument: &[u8])
    ensures
        command_arguments(*final(command)) == command_arguments(*old(command)).push(
            Some(argument@),
        ),
{
    command.arg(argument);
}

/// What stands first in a command: its name, unless it is empty or starts with a cursor.
pub open spec fn command_name(command: redis::Cmd) -> Option<Seq<u8>> {
    if command_arguments(command).len() == 0 {
        None
    } else {
        command_arguments(command)[0]
    }
}

/// Takes the first item of `redis::Cmd::args_iter`, which walks the arguments in wire
/// order. `None` if there is none or it is a cursor.
#[verifier::external_body]
pub(crate) fn first_argument(command: &redis::Cmd) -> (argument: Option<Vec<u8>>)
    ensures
        match argument {
            Some(bytes) => command_name(*command) == Some(bytes@),
            None => command_name(*command) is None,
        },
{
    match command.args_iter().next() {
        Some(redis::Arg::Simple(argument)) => Some(argument.to_vec()),
        _ => None,
    }
}

/// A command with the given name and arguments, as it goes on the wire.
pub open spec fn wire_arguments(name: Seq<char>, arguments: Seq<Seq<u8>>) -> Seq<Option<Seq<u8>>> {
    seq![Some(encode_utf8(name))] + arguments.map_values(|argument: Seq<u8>| Some(argument))
}

/// Build a command from its name and its arguments in wire order.
pub fn build_command(name: &str, arguments: &[Vec<u8>]) -> (command: redis::Cmd)
    ensures
        command_arguments(command) == wire_arguments(name@, byte_strings(arguments@)),
        command_arguments(command).len() == arguments@.len() + 1,
        command_arguments(command)[0] == Some(encode_utf8(name@)),
        forall|i: int|
            0 <= i < arguments@.len() ==> command_arguments(command)[i + 1] == Some(
                (#[trigger] arguments@[i])@,
            ),
{
    let mut command = new_command(name);
    let mut at: usize = 0;
    assert(command_arguments(command) =~= wire_arguments(name@, byte_strings(arguments@).take(0)));
    while at < arguments.len()
        invariant
            at <= arguments.len(),
            command_arguments(command) == wire_arguments(
                name@,
                byte_strings(arguments@).take(at as int),
            ),
        decreases arguments.len() - at,
    {
        push_argument(&mut command, arguments[at].as_slice());
        assert(command_arguments(command) =~= wire_arguments(
            name@,
            byte_strings(arguments@).take(at + 1),
        ));
        at = at + 1;
    }
    assert(byte_strings(arguments@).take(at as int) =~= byte_strings(arguments@));
    command
}

// ---------------------------------------------------------------------------
// Batches
// ---------------------------------------------------------------------------

/// A batch of the `redis` crate. Opaque here; see [`batch_commands`].
#[verifier::external_type_specification]
#[verifier::external_body]
pub struct ExPipeline(redis::Pipeline);

/// The commands of a batch, in order.
pub uninterp spec fn batch_commands(batch: redis::Pipeline) -> Seq<redis::Cmd>;

/// Collects `redis::Pipeline::cmd_iter`, which walks the commands of a batch in order.
#[verifier::external_body]
pub(crate) fn commands_of(batch: &redis::Pipeline) -> (commands: Vec<&redis::Cmd>)
    ensures
        commands@.len() == batch_commands(*batch).len(),
        forall|i: int|
            0 <= i < commands@.len() ==> *(#[trigger] commands@[i]) == batch_commands(*batch)[i],
{
    batch.cmd_iter().collect()
}

// ---------------------------------------------------------------------------
// What the readings are
// ---------------------------------------------------------------------------

/// A command goes on the wire as its name and then each argument, whole and in order,
/// and nothing else.
pub proof fn a_command_is_its_name_and_its_arguments(name: Seq<char>, arguments: Seq<Seq<u8>>)
    ensures
        wire_arguments(name, arguments).len() == arguments.len() + 1,
        wire_arguments(name, arguments)[0] == Some(encode_utf8(name)),
        forall|i: int|
            0 <= i < arguments.len() ==> wire_arguments(name, arguments)[i + 1] == Some(
                #[trigger] arguments[i],
            ),
{
}

/// The name of a command is what stands first in it.
pub proof fn a_command_is_named_by_what_stands_first(command: redis::Cmd)
    ensures
        command_arguments(command).len() == 0 ==> command_name(command) is None,
        command_arguments(command).len() > 0 ==> command_name(command)
            == command_arguments(command)[0],
{
}

/// A failure in words starts with what failed, names its kind and ends with what was
/// wrong this time.
pub proof fn a_raised_failure_says_what_why_and_how(
    kind: ErrorKind,
    description: Seq<char>,
    detail: Seq<char>,
)
    ensures
        ({
            let error = RequestErrorView::Raised { kind, description, detail };
            let message = error.message();
            &&& error.kind() == kind
            &&& !error.dropped()
            &&& !error.timeout()
            &&& message.take(description.len() as int) == description
            &&& message.skip(message.len() - detail.len()) == detail
            &&& holds(message, kind_name(kind))
        }),
{
    let message = RequestErrorView::Raised { kind, description, detail }.message();
    assert(message.take(description.len() as int) =~= description);
    assert(message.skip(message.len() - detail.len()) =~= detail);
    lemma_holds(message, description + " - "@, kind_name(kind), ": "@ + detail);
}

/// The texts of strings are the strings, one for one and in order, and so are the
/// contents of byte strings.
pub proof fn lists_are_seen_item_by_item(strings: Seq<String>, bytes: Seq<Vec<u8>>)
    ensures
        texts(strings).len() == strings.len(),
        forall|i: int| 0 <= i < strings.len() ==> #[trigger] texts(strings)[i] == strings[i]@,
        byte_strings(bytes).len() == bytes.len(),
        forall|i: int| 0 <= i < bytes.len() ==> #[trigger] byte_strings(bytes)[i] == bytes[i]@,
{
}

/// Nothing of a failure is left out of its mathematical form: failures that are the same
/// there have the same kind, description and detail, or are the same reported error.
pub proof fn a_failure_is_seen_whole(left: RequestError, right: RequestError)
    requires
        left@ == right@,
    ensures
        match (left, right) {
            (
                RequestError::Raised { kind, description, detail },
                RequestError::Raised {
                    kind: other_kind,
                    description: other_description,
                    detail: other_detail,
                },
            ) => kind == other_kind && description@ == other_description@ && detail@
                == other_detail@,
            (RequestError::Reported(error), RequestError::Reported(other)) => error == other,
            _ => false,
        },
{
}

/// Nothing of a reply that some rule reads is left out of its mathematical form.
pub proof fn a_reply_is_seen_whole(left: Reply, right: Reply)
    requires
        left@ == right@,
    ensures
        match (left, right) {
            (Reply::Nil, Reply::Nil) => true,
            (Reply::Int(value), Reply::Int(other)) => value == other,
            (Reply::Okay, Reply::Okay) => true,
            (Reply::SimpleString(status), Reply::SimpleString(other)) => status@ == other@,
            (Reply::Array(items), Reply::Array(other)) => items@ == other@,
            (Reply::Other, Reply::Other) => true,
            _ => false,
        },
{
}

/// A result is seen as it is, with its value or its error.
pub proof fn a_result_is_seen_as_it_is<T>(result: Result<T, RequestError>)
    ensures
        match result {
            Ok(value) => request_outcome(result) is Ok && request_outcome(result)->Ok_0 == value,
            Err(error) => request_outcome(result) is Err && request_outcome(result)->Err_0
                == error@,
        },
{
}

/// A list that was read, or the text of why it was not, is seen as it is.
pub proof fn a_reading_is_seen_as_it_is(strings: Result<Vec<String>, String>)
    ensures
        match strings {
            Ok(strings_read) => {
                &&& strings_view(strings) is Ok
                &&& strings_view(strings)->Ok_0.len() == strings_read@.len()
                &&& forall|i: int|
                    0 <= i < strings_read@.len() ==> #[trigger] strings_view(strings)->Ok_0[i]
                        == strings_read@[i]@
            },
            Err(error) => strings_view(strings) is Err && strings_view(strings)->Err_0 == error@,
        },
{
}

/// Every kind has a name of its own.
pub proof fn kinds_have_names_of_their_own(left: ErrorKind, right: ErrorKind)
    ensures
        kind_name(left) == kind_name(right) <==> left == right,
{
    reveal_strlit("ResponseError");
    reveal_strlit("TypeError");
    reveal_strlit("BusyLoadingError");
    reveal_strlit("InvalidClientConfig");
    reveal_strlit("TryAgain");
    reveal_strlit("IoError");
    reveal_strlit("ClientError");
    reveal_strlit("ReadOnly");
    reveal_strlit("UserOperationError");
    reveal_strlit("ProtocolDesync");
    reveal_strlit("Other");
    assert("TryAgain"@[0] != "ReadOnly"@[0]);
    assert(kind_name(left).len() != kind_name(right).len() || kind_name(left)[0] != kind_name(
        right,
    )[0] || left == right);
}

} // verus!
