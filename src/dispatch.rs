use vstd::prelude::*;
use crate::error::NotifyError;

verus! {

/// The external command that sends a notification to the daemon.
pub const NOTIFY_COMMAND: &'static str = "notify-send";

/// The result of a balloon dispatch, given whether the shell reported
/// that it added the balloon.
pub fn balloon_outcome(added: bool) -> (r: Result<(), NotifyError>)
    ensures
        added ==> r == Ok::<(), NotifyError>(()),
        !added ==> r == Err::<(), NotifyError>(NotifyError::NativeCallFailed),
{
    if added {
        Ok(())
    } else {
        Err(NotifyError::NativeCallFailed)
    }
}

/// The result of a dispatch through `NOTIFY_COMMAND`, given whether the
/// command could be started. Its exit status is not consulted.
pub fn spawn_outcome(launched: bool) -> (r: Result<(), NotifyError>)
    ensures
        launched ==> r == Ok::<(), NotifyError>(()),
        !launched ==> r == Err::<(), NotifyError>(NotifyError::SpawnFailed),
{
    if launched {
        Ok(())
    } else {
        Err(NotifyError::SpawnFailed)
    }
}

/// The positional arguments of `NOTIFY_COMMAND`: the title, then the body.
pub fn command_args(text: &str, title: &str) -> (r: Vec<String>)
    ensures
        r.len() == 2,
        r[0]@ == title@,
        r[1]@ == text@,
{
    let mut args: Vec<String> = Vec::new();
    args.push(title.to_owned());
    args.push(text.to_owned());
    args
}

} // verus!
