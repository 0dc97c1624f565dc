//! Keeping `LO.*` commands to the methods that lend them memory.

use vstd::prelude::*;
use vstd::string::StringExecFns;
#[allow(unused_imports)]
use vstd::utf8::{encode_utf8, is_ascii_chars, is_ascii_chars_encode_utf8};

use crate::resp::{commands_of, first_argument, ErrorKind, RequestError};
#[allow(unused_imports)]
use crate::rdma::command::{is_letter, transfers_are_lo_get_and_lo_set};
#[allow(unused_imports)]
use crate::resp::{
    batch_commands, command_arguments, command_name, request_outcome, RequestErrorView,
};
use crate::text::{push_ascii, spells_out};
#[allow(unused_imports)]
use crate::text::{
    ascii_bytes, ascii_text, lower, same_ignoring_case, same_letter, spelling_goes_by_characters,
    spells,
};

verus! {

/// Whether a command of this name is one of RDMA's own.
pub open spec fn is_rdma_command(name: Seq<u8>) -> bool {
    spells(name, "LO.HELLO"@) || spells(name, "LO.GET"@) || spells(name, "LO.SET"@)
}

/// How a command of this name is refused.
pub open spec fn refusal(name: Seq<u8>) -> RequestErrorView {
    RequestErrorView::Raised {
        kind: ErrorKind::ClientError,
        description: "RDMA command refused"@,
        detail: ascii_text(name) + " can only be sent by the client's RDMA transfer methods"@,
    }
}

/// What becomes of a command of this name outside the RDMA methods.
pub open spec fn refused_name(name: Seq<u8>) -> Result<(), RequestErrorView> {
    if is_rdma_command(name) {
        Err(refusal(name))
    } else {
        Ok(())
    }
}

/// What becomes of a command outside the RDMA methods. One that starts with no name is
/// none of RDMA's.
pub open spec fn refused_command(command: redis::Cmd) -> Result<(), RequestErrorView> {
    match command_name(command) {
        Some(name) => refused_name(name),
        None => Ok(()),
    }
}

/// What becomes of a batch outside the RDMA methods: the first refusal there is.
pub open spec fn refused_batch(commands: Seq<redis::Cmd>) -> Result<(), RequestErrorView>
    decreases commands.len(),
{
    if commands.len() == 0 {
        Ok(())
    } else if refused_batch(commands.drop_last()) is Err {
        refused_batch(commands.drop_last())
    } else {
        refused_command(commands.last())
    }
}

/// Refuse an `LO.*` command that did not come from the client's RDMA methods.
pub fn refuse_direct(name: &[u8]) -> (accepted: Result<(), RequestError>)
    ensures
        request_outcome(accepted) == refused_name(name@),
{
    proof {
        reveal_strlit("LO.HELLO");
        reveal_strlit("LO.GET");
        reveal_strlit("LO.SET");
    }
    if !spells_out(name, "LO.HELLO") && !spells_out(name, "LO.GET") && !spells_out(
        name,
        "LO.SET",
    ) {
        return Ok(());
    }
    // A name that matched is ASCII, so it is its own text.
    let mut detail = String::new();
    push_ascii(&mut detail, name);
    detail.append(" can only be sent by the client's RDMA transfer methods");
    assert(detail@ =~= ascii_text(name@)
        + " can only be sent by the client's RDMA transfer methods"@);
    Err(
        RequestError::Raised {
            kind: ErrorKind::ClientError,
            description: "RDMA command refused",
            detail,
        },
    )
}

/// [`refuse_direct`] for a built command.
pub fn refuse_direct_command(command: &redis::Cmd) -> (accepted: Result<(), RequestError>)
    ensures
        request_outcome(accepted) == refused_command(*command),
{
    match first_argument(command) {
        Some(name) => refuse_direct(name.as_slice()),
        None => Ok(()),
    }
}

/// [`refuse_direct`] for every command in a batch.
pub fn refuse_direct_in_batch(batch: &redis::Pipeline) -> (accepted: Result<(), RequestError>)
    ensures
        request_outcome(accepted) == refused_batch(batch_commands(*batch)),
{
    let commands = commands_of(batch);
    assert(commands_behind(commands@) =~= batch_commands(*batch));
    refuse_direct_among(commands.as_slice())
}

/// The commands behind a list of references.
pub open spec fn commands_behind(commands: Seq<&redis::Cmd>) -> Seq<redis::Cmd> {
    Seq::new(commands.len(), |i: int| *commands[i])
}

/// [`refuse_direct`] for each of these commands, in order.
pub fn refuse_direct_among(commands: &[&redis::Cmd]) -> (accepted: Result<(), RequestError>)
    ensures
        request_outcome(accepted) == refused_batch(commands_behind(commands@)),
{
    let ghost all = commands_behind(commands@);
    let mut at: usize = 0;
    while at < commands.len()
        invariant
            at <= commands@.len(),
            all == commands_behind(commands@),
            refused_batch(all.take(at as int)) is Ok,
        decreases commands@.len() - at,
    {
        assert(all.take(at + 1).drop_last() =~= all.take(at as int));
        match refuse_direct_command(commands[at]) {
            Ok(_) => {},
            Err(error) => {
                proof {
                    lemma_refused_prefix(all, at + 1);
                }
                return Err(error);
            },
        }
        at = at + 1;
    }
    assert(all.take(at as int) =~= all);
    Ok(())
}

proof fn lemma_refused_prefix(commands: Seq<redis::Cmd>, count: int)
    requires
        0 <= count <= commands.len(),
        refused_batch(commands.take(count)) is Err,
    ensures
        refused_batch(commands) == refused_batch(commands.take(count)),
    decreases commands.len() - count,
{
    if count == commands.len() {
        assert(commands.take(count) =~= commands);
    } else {
        assert(commands.take(count + 1).drop_last() =~= commands.take(count));
        lemma_refused_prefix(commands, count + 1);
    }
}

/// A batch is refused just when one of its commands is.
pub proof fn a_batch_is_refused_with_any_of_its_commands(commands: Seq<redis::Cmd>)
    ensures
        refused_batch(commands) is Err <==> exists|i: int|
            0 <= i < commands.len() && refused_command(#[trigger] commands[i]) is Err,
    decreases commands.len(),
{
    if commands.len() > 0 {
        let earlier = commands.drop_last();
        a_batch_is_refused_with_any_of_its_commands(earlier);
        if refused_batch(earlier) is Err {
            let at = choose|i: int|
                0 <= i < earlier.len() && refused_command(#[trigger] earlier[i]) is Err;
            assert(refused_command(commands[at]) is Err);
        } else if exists|i: int|
            0 <= i < commands.len() && refused_command(#[trigger] commands[i]) is Err {
            let at = choose|i: int|
                0 <= i < commands.len() && refused_command(#[trigger] commands[i]) is Err;
            if at < earlier.len() {
                assert(refused_command(earlier[at]) is Err);
            }
        } else {
            assert(commands[commands.len() - 1] == commands.last());
        }
    }
}

/// Whether a name is refused does not depend on the case it is written in.
pub proof fn refusal_ignores_case(name: Seq<u8>, other: Seq<u8>)
    requires
        same_ignoring_case(name, other),
    ensures
        is_rdma_command(name) == is_rdma_command(other),
{
    lemma_same_name(name, other, "LO.HELLO"@);
    lemma_same_name(name, other, "LO.GET"@);
    lemma_same_name(name, other, "LO.SET"@);
}

proof fn lemma_same_name(name: Seq<u8>, other: Seq<u8>, command: Seq<char>)
    requires
        same_ignoring_case(name, other),
    ensures
        spells(name, command) == spells(other, command),
{
    let bytes = ascii_bytes(command);
    if spells(name, command) {
        assert forall|i: int| 0 <= i < other.len() implies lower(#[trigger] other[i]) == lower(
            bytes[i],
        ) by {
            assert(lower(name[i]) == lower(bytes[i]));
        }
    }
    if spells(other, command) {
        assert forall|i: int| 0 <= i < name.len() implies lower(#[trigger] name[i]) == lower(
            bytes[i],
        ) by {
            assert(lower(other[i]) == lower(bytes[i]));
        }
    }
}

proof fn lemma_name_is_ascii(name: Seq<u8>, command: Seq<char>)
    requires
        spells(name, command),
        is_ascii_chars(command),
    ensures
        encode_utf8(ascii_text(name)) == name,
{
    let bytes = ascii_bytes(command);
    assert forall|i: int| 0 <= i < name.len() implies #[trigger] name[i] < 128 by {
        assert(lower(name[i]) == lower(bytes[i]));
        assert(bytes[i] == command[i] as u8);
    }
    let text = ascii_text(name);
    assert(is_ascii_chars(text)) by {
        assert forall|i: int| 0 <= i < text.len() implies 0 <= (#[trigger] text[i]) as int
            <= 127 by {
            assert(name[i] < 128);
        }
    }
    is_ascii_chars_encode_utf8(text);
    assert(encode_utf8(text) =~= name);
}

/// A refusal names the command in the very bytes it was sent in.
pub proof fn a_refusal_names_the_command(name: Seq<u8>)
    requires
        is_rdma_command(name),
    ensures
        encode_utf8(ascii_text(name)) == name,
{
    reveal_strlit("LO.HELLO");
    reveal_strlit("LO.GET");
    reveal_strlit("LO.SET");
    if spells(name, "LO.HELLO"@) {
        lemma_name_is_ascii(name, "LO.HELLO"@);
    } else if spells(name, "LO.GET"@) {
        lemma_name_is_ascii(name, "LO.GET"@);
    } else {
        lemma_name_is_ascii(name, "LO.SET"@);
    }
}

/// The commands that are refused are `lo.get`, `lo.set` and `lo.hello`, in any mixture
/// of capitals, and no others.
pub proof fn the_refused_commands_are_three(name: Seq<u8>)
    ensures
        refused_name(name) is Err <==> name.len() >= 6 && is_letter(name[0], 'l') && is_letter(
            name[1],
            'o',
        ) && name[2] == '.' as u8 && ({
            ||| name.len() == 6 && (is_letter(name[3], 'g') || is_letter(name[3], 's'))
                && is_letter(name[4], 'e') && is_letter(name[5], 't')
            ||| name.len() == 8 && is_letter(name[3], 'h') && is_letter(name[4], 'e')
                && is_letter(name[5], 'l') && is_letter(name[6], 'l') && is_letter(name[7], 'o')
        }),
{
    reveal_strlit("LO.HELLO");
    reveal_strlit("LO.GET");
    reveal_strlit("LO.SET");
    spelling_goes_by_characters(name, "LO.HELLO"@);
    transfers_are_lo_get_and_lo_set(name);
    if spells(name, "LO.HELLO"@) {
        assert(same_letter(name[0], 'L' as u8));
        assert(same_letter(name[1], 'O' as u8));
        assert(same_letter(name[2], '.' as u8));
        assert(same_letter(name[3], 'H' as u8));
        assert(same_letter(name[4], 'E' as u8));
        assert(same_letter(name[5], 'L' as u8));
        assert(same_letter(name[6], 'L' as u8));
        assert(same_letter(name[7], 'O' as u8));
    }
}

/// A command is judged by its first argument alone, and one without a name is sent.
pub proof fn a_command_is_judged_by_its_first_argument(command: redis::Cmd)
    ensures
        command_arguments(command).len() == 0 ==> refused_command(command) is Ok,
        command_arguments(command).len() > 0 ==> match command_arguments(command)[0] {
            Some(name) => refused_command(command) == refused_name(name),
            None => refused_command(command) is Ok,
        },
{
}

/// A refusal is a client error that says which command it was about.
pub proof fn a_refusal_is_a_client_error_about_the_command(name: Seq<u8>)
    requires
        refused_name(name) is Err,
    ensures
        refused_name(name)->Err_0.kind() == ErrorKind::ClientError,
        refused_name(name)->Err_0 matches RequestErrorView::Raised { detail, .. }
            && encode_utf8(detail.take(name.len() as int)) == name && detail.skip(
            name.len() as int,
        ) == " can only be sent by the client's RDMA transfer methods"@,
        refused_name(name)->Err_0 matches RequestErrorView::Raised { description, .. }
            && description == "RDMA command refused"@,
{
    a_refusal_names_the_command(name);
    if let RequestErrorView::Raised { detail, .. } = refusal(name) {
        assert(detail.take(name.len() as int) =~= ascii_text(name));
        assert(detail.skip(name.len() as int)
            =~= " can only be sent by the client's RDMA transfer methods"@);
    }
}

/// A batch is refused for the first of its commands that is.
pub proof fn a_batch_is_refused_for_the_first(
    accepted: Seq<redis::Cmd>,
    command: redis::Cmd,
    rest: Seq<redis::Cmd>,
)
    requires
        forall|i: int|
            0 <= i < accepted.len() ==> refused_command(#[trigger] accepted[i]) is Ok,
        refused_command(command) is Err,
    ensures
        refused_batch(accepted.push(command) + rest) == refused_command(command),
{
    a_batch_is_refused_with_any_of_its_commands(accepted);
    let prefix = accepted.push(command);
    assert(prefix.drop_last() =~= accepted);
    assert((prefix + rest).take(prefix.len() as int) =~= prefix);
    lemma_refused_prefix(prefix + rest, prefix.len() as int);
}

/// The commands behind references are the commands, one for one and in order.
pub proof fn commands_are_seen_one_by_one(commands: Seq<&redis::Cmd>)
    ensures
        commands_behind(commands).len() == commands.len(),
        forall|i: int|
            0 <= i < commands.len() ==> #[trigger] commands_behind(commands)[i] == *commands[i],
{
}

} // verus!
