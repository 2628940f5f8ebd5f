//! Redis commands, pipelines and script calls, built through the `redis`
//! crate and described by the bytes of their arguments.

use vstd::prelude::*;
use vstd::utf8::encode_utf8;
use crate::text::decimal;

verus! {

/// `redis::Cmd`, a command being assembled.
#[verifier::external_type_specification]
#[verifier::external_body]
pub struct ExRedisCmd(redis::Cmd);

/// `redis::Pipeline`, a sequence of commands sent together.
#[verifier::external_type_specification]
#[verifier::external_body]
pub struct ExRedisPipeline(redis::Pipeline);

/// The arguments of a command, the command's name first, each as the bytes
/// that are sent for it.
pub uninterp spec fn command_args(c: redis::Cmd) -> Seq<Seq<u8>>;

/// The commands of a pipeline, in order, each by its arguments.
pub uninterp spec fn pipeline_commands(p: redis::Pipeline) -> Seq<Seq<Seq<u8>>>;

/// Whether a pipeline is sent as one transaction, enclosed in `MULTI`/`EXEC`.
pub uninterp spec fn pipeline_is_atomic(p: redis::Pipeline) -> bool;

/// The bytes sent for the text `s`: its UTF-8 encoding.
pub open spec fn text_arg(s: Seq<char>) -> Seq<u8> {
    encode_utf8(s)
}

/// The bytes sent for the unsigned integer `n`: its decimal text.
pub open spec fn u64_arg(n: u64) -> Seq<u8> {
    encode_utf8(decimal(n as nat))
}

/// `redis::cmd(name)`: a command whose only argument so far is its name.
#[verifier::external_body]
fn new_command(name: &str) -> (c: redis::Cmd)
    ensures
        command_args(c) == seq![text_arg(name@)],
{
    redis::cmd(name)
}

/// `Cmd::arg` with a `&str`: appends the text's UTF-8 bytes as one argument.
#[verifier::external_body]
fn command_arg_text(c: &mut redis::Cmd, arg: &str)
    ensures
        command_args(*final(c)) == command_args(*old(c)).push(text_arg(arg@)),
{
    c.arg(arg);
}

/// `Cmd::arg` with a `u64`: appends the number's decimal text (as `itoa`
/// formats it) as one argument.
#[verifier::external_body]
fn command_arg_u64(c: &mut redis::Cmd, arg: u64)
    ensures
        command_args(*final(c)) == command_args(*old(c)).push(u64_arg(arg)),
{
    c.arg(arg);
}

/// `redis::pipe()`: an empty pipeline, not atomic.
#[verifier::external_body]
fn new_pipeline() -> (p: redis::Pipeline)
    ensures
        pipeline_commands(p) == Seq::<Seq<Seq<u8>>>::empty(),
        !pipeline_is_atomic(p),
{
    redis::pipe()
}

/// `Pipeline::atomic`: the pipeline is sent as one transaction; its commands
/// do not change.
#[verifier::external_body]
fn pipeline_atomic(p: &mut redis::Pipeline)
    ensures
        pipeline_commands(*final(p)) == pipeline_commands(*old(p)),
        pipeline_is_atomic(*final(p)),
{
    p.atomic();
}

/// `Pipeline::cmd`: starts a new command named `name` at the end.
#[verifier::external_body]
fn pipeline_cmd(p: &mut redis::Pipeline, name: &str)
    ensures
        pipeline_commands(*final(p)) == pipeline_commands(*old(p)).push(seq![text_arg(name@)]),
        pipeline_is_atomic(*final(p)) == pipeline_is_atomic(*old(p)),
{
    p.cmd(name);
}

/// `Pipeline::arg` with a `&str`: appends the text to the last command (the
/// pipeline panics when it has none).
#[verifier::external_body]
fn pipeline_arg_text(p: &mut redis::Pipeline, arg: &str)
    requires
        pipeline_commands(*old(p)).len() > 0,
    ensures
        pipeline_commands(*final(p)) == pipeline_commands(*old(p)).update(
            pipeline_commands(*old(p)).len() - 1,
            pipeline_commands(*old(p)).last().push(text_arg(arg@)),
        ),
        pipeline_is_atomic(*final(p)) == pipeline_is_atomic(*old(p)),
{
    p.arg(arg);
}

/// `Pipeline::arg` with a `u64`: appends the number's decimal text to the
/// last command (the pipeline panics when it has none).
#[verifier::external_body]
fn pipeline_arg_u64(p: &mut redis::Pipeline, arg: u64)
    requires
        pipeline_commands(*old(p)).len() > 0,
    ensures
        pipeline_commands(*final(p)) == pipeline_commands(*old(p)).update(
            pipeline_commands(*old(p)).len() - 1,
            pipeline_commands(*old(p)).last().push(u64_arg(arg)),
        ),
        pipeline_is_atomic(*final(p)) == pipeline_is_atomic(*old(p)),
{
    p.arg(arg);
}

/// `redis::Script`, a Lua script together with its SHA1 hash.
#[verifier::external_type_specification]
#[verifier::external_body]
pub struct ExRedisScript(redis::Script);

/// `redis::ScriptInvocation`, a call of a script being assembled.
#[verifier::external_type_specification]
#[verifier::external_body]
pub struct ExRedisScriptInvocation<'a>(redis::ScriptInvocation<'a>);

/// The Lua source a script holds.
pub uninterp spec fn script_source(s: redis::Script) -> Seq<char>;

/// The Lua source of the script an invocation calls.
pub uninterp spec fn invocation_source(i: redis::ScriptInvocation) -> Seq<char>;

/// The keys (`KEYS`) of an invocation, each as the bytes sent for it.
pub uninterp spec fn invocation_keys(i: redis::ScriptInvocation) -> Seq<Seq<u8>>;

/// The arguments (`ARGV`) of an invocation, each as the bytes sent for it.
pub uninterp spec fn invocation_args(i: redis::ScriptInvocation) -> Seq<Seq<u8>>;

/// `redis::Script::new(code)`: the script holding `code` (and its hash).
#[verifier::external_body]
pub(crate) fn new_script(code: &str) -> (s: redis::Script)
    ensures
        script_source(s) == code@,
{
    redis::Script::new(code)
}

/// `Script::key` with a `&str`: a call of the script whose one key is the
/// text and which has no arguments yet.
#[verifier::external_body]
pub(crate) fn script_key<'a>(script: &'a redis::Script, key: &str) -> (i: redis::ScriptInvocation<'a>)
    ensures
        invocation_source(i) == script_source(*script),
        invocation_keys(i) == seq![text_arg(key@)],
        invocation_args(i) == Seq::<Seq<u8>>::empty(),
{
    script.key(key)
}

/// `ScriptInvocation::arg` with a `&str`: appends the text as an argument.
#[verifier::external_body]
pub(crate) fn invocation_arg_text<'a>(i: &mut redis::ScriptInvocation<'a>, arg: &str)
    ensures
        invocation_source(*final(i)) == invocation_source(*old(i)),
        invocation_keys(*final(i)) == invocation_keys(*old(i)),
        invocation_args(*final(i)) == invocation_args(*old(i)).push(text_arg(arg@)),
{
    i.arg(arg);
}

/// `ScriptInvocation::arg` with a `u64`: appends the number's decimal text
/// as an argument.
#[verifier::external_body]
pub(crate) fn invocation_arg_u64<'a>(i: &mut redis::ScriptInvocation<'a>, arg: u64)
    ensures
        invocation_source(*final(i)) == invocation_source(*old(i)),
        invocation_keys(*final(i)) == invocation_keys(*old(i)),
        invocation_args(*final(i)) == invocation_args(*old(i)).push(u64_arg(arg)),
{
    i.arg(arg);
}

/// The arguments of `SET key value NX <unit> amount`.
pub open spec fn set_if_absent_args(key: Seq<char>, value: Seq<char>, unit: Seq<char>, amount: u64) -> Seq<
    Seq<u8>,
> {
    seq![
        text_arg("SET"@),
        text_arg(key),
        text_arg(value),
        text_arg("NX"@),
        text_arg(unit),
        u64_arg(amount),
    ]
}

/// The atomic pipeline holding the single command
/// `SET key value NX EX expire_seconds`.
pub fn set_if_absent_ex_pipeline(key: &str, value: &str, expire_seconds: u64) -> (p: redis::Pipeline)
    ensures
        pipeline_is_atomic(p),
        pipeline_commands(p) == seq![set_if_absent_args(key@, value@, "EX"@, expire_seconds)],
{
    let mut p = new_pipeline();
    pipeline_atomic(&mut p);
    pipeline_cmd(&mut p, "SET");
    assert(pipeline_commands(p) =~~= seq![seq![text_arg("SET"@)]]);
    pipeline_arg_text(&mut p, key);
    assert(pipeline_commands(p) =~~= seq![seq![text_arg("SET"@), text_arg(key@)]]);
    pipeline_arg_text(&mut p, value);
    assert(pipeline_commands(p) =~~= seq![seq![text_arg("SET"@), text_arg(key@), text_arg(value@)]]);
    pipeline_arg_text(&mut p, "NX");
    assert(pipeline_commands(p) =~~= seq![
        seq![text_arg("SET"@), text_arg(key@), text_arg(value@), text_arg("NX"@)],
    ]);
    pipeline_arg_text(&mut p, "EX");
    assert(pipeline_commands(p) =~~= seq![
        seq![text_arg("SET"@), text_arg(key@), text_arg(value@), text_arg("NX"@), text_arg("EX"@)],
    ]);
    pipeline_arg_u64(&mut p, expire_seconds);
    assert(pipeline_commands(p)[0] =~= set_if_absent_args(key@, value@, "EX"@, expire_seconds));
    assert(pipeline_commands(p) =~~= seq![set_if_absent_args(key@, value@, "EX"@, expire_seconds)]);
    p
}

/// The command `SET key value NX PX expire_millis`.
pub fn set_if_absent_px_command(key: &str, value: &str, expire_millis: u64) -> (c: redis::Cmd)
    ensures
        command_args(c) == set_if_absent_args(key@, value@, "PX"@, expire_millis),
{
    let mut c = new_command("SET");
    command_arg_text(&mut c, key);
    command_arg_text(&mut c, value);
    command_arg_text(&mut c, "NX");
    command_arg_text(&mut c, "PX");
    command_arg_u64(&mut c, expire_millis);
    assert(command_args(c) =~= set_if_absent_args(key@, value@, "PX"@, expire_millis));
    c
}

/// The command `DEL key`.
pub fn delete_command(key: &str) -> (c: redis::Cmd)
    ensures
        command_args(c) == seq![text_arg("DEL"@), text_arg(key@)],
{
    let mut c = new_command("DEL");
    command_arg_text(&mut c, key);
    assert(command_args(c) =~= seq![text_arg("DEL"@), text_arg(key@)]);
    c
}

} // verus!
