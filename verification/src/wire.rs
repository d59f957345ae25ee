//! The commands of the pilot index, as the `redis` crate builds them.
//!
//! The library builds commands and pipelines; sending them is left to the
//! caller. All that is known here of a command is the list of its arguments,
//! and of a pipeline the commands it holds and which replies it drops.

use vstd::prelude::*;

verus! {

/// `redis::Cmd`: a command with its arguments.
#[verifier::external_type_specification]
#[verifier::external_body]
pub struct ExCmd(redis::Cmd);

/// `redis::Pipeline`: commands that are sent in one go.
#[verifier::external_type_specification]
#[verifier::external_body]
pub struct ExPipeline(redis::Pipeline);

/// `redis::Client`: where the store is, and how to connect to it. The library
/// carries it and never looks inside.
#[verifier::external_type_specification]
#[verifier::external_body]
pub struct ExClient(redis::Client);

/// The arguments of a command in order, the command's name first.
pub uninterp spec fn command_args(command: redis::Cmd) -> Seq<Seq<u8>>;

/// The commands of a pipeline in order, each as its arguments.
pub uninterp spec fn pipeline_commands(pipeline: redis::Pipeline) -> Seq<Seq<Seq<u8>>>;

/// The positions of the commands whose replies the pipeline drops.
pub uninterp spec fn pipeline_ignored(pipeline: redis::Pipeline) -> Set<int>;

/// Whether the pipeline is sent as a transaction, between `MULTI` and `EXEC`.
pub uninterp spec fn pipeline_is_atomic(pipeline: redis::Pipeline) -> bool;

/// `redis::cmd`: a new command that holds its name as the only argument.
#[verifier::external_body]
pub(crate) fn command(name: &str) -> (command: redis::Cmd)
    ensures
        command_args(command) == seq![vstd::utf8::encode_utf8(name@)],
{
    redis::cmd(name)
}

/// `redis::Cmd::arg` on a slice of bytes: the bytes become one more
/// argument, behind those that the command holds.
#[verifier::external_body]
pub(crate) fn push_arg(command: &mut redis::Cmd, arg: &[u8])
    ensures
        command_args(*final(command)) == command_args(*old(command)).push(arg@),
{
    command.arg(arg);
}

/// `redis::pipe`: an empty pipeline that drops no reply and is no
/// transaction.
#[verifier::external_body]
pub(crate) fn pipeline() -> (pipeline: redis::Pipeline)
    ensures
        pipeline_commands(pipeline) == Seq::<Seq<Seq<u8>>>::empty(),
        pipeline_ignored(pipeline) == Set::<int>::empty(),
        !pipeline_is_atomic(pipeline),
{
    redis::pipe()
}

/// `redis::Pipeline::add_command`: the command goes to the end of the
/// pipeline; which replies are dropped and whether it is a transaction stay
/// as they are.
#[verifier::external_body]
pub(crate) fn add_command(pipeline: &mut redis::Pipeline, command: redis::Cmd)
    ensures
        pipeline_commands(*final(pipeline)) == pipeline_commands(*old(pipeline)).push(
            command_args(command),
        ),
        pipeline_ignored(*final(pipeline)) == pipeline_ignored(*old(pipeline)),
        pipeline_is_atomic(*final(pipeline)) == pipeline_is_atomic(*old(pipeline)),
{
    pipeline.add_command(command);
}

/// `redis::Pipeline::ignore`: the reply of the last command will be dropped.
/// On an empty pipeline it changes nothing.
#[verifier::external_body]
pub(crate) fn ignore_last(pipeline: &mut redis::Pipeline)
    ensures
        pipeline_commands(*final(pipeline)) == pipeline_commands(*old(pipeline)),
        pipeline_ignored(*final(pipeline)) == if pipeline_commands(*old(pipeline)).len() == 0 {
            pipeline_ignored(*old(pipeline))
        } else {
            pipeline_ignored(*old(pipeline)).insert(pipeline_commands(*old(pipeline)).len() - 1)
        },
        pipeline_is_atomic(*final(pipeline)) == pipeline_is_atomic(*old(pipeline)),
{
    pipeline.ignore();
}

} // verus!
