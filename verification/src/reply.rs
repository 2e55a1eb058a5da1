//! Reading the integers that the daemon's client library hands back.

use vstd::prelude::*;

verus! {

/// The status with which the client library reports that a command went through.
pub const SUCCESS: i32 = 1;

/// The status with which the client library reports that a message was not queued.
pub const NOT_QUEUED: i32 = -1;

/// The identifier that a status of the client library stands for, after a
/// text was handed over for speaking. The daemon gives its messages
/// identifiers that are not negative, so such a status is the identifier
/// itself. A negative status, [`NOT_QUEUED`] or any other, says that the
/// daemon did not take the text: it stands for no identifier.
pub open spec fn spec_message_id(status: i32) -> Option<u64> {
    if status >= 0 {
        Some(status as u64)
    } else {
        None
    }
}

/// Whether a status reports success: it does exactly when it is [`SUCCESS`].
/// Every other status, the negative error codes among them, is a failure.
pub fn i32_to_bool(v: i32) -> (ok: bool)
    ensures
        ok == (v == SUCCESS),
{
    v == SUCCESS
}

/// Whether a submission went through. `status` is what the client library
/// answered, or `None` where nothing was sent because there was nothing to
/// say: that counts as done.
pub fn submitted(status: Option<i32>) -> (ok: bool)
    ensures
        ok == match status {
            Some(v) => v == SUCCESS,
            None => true,
        },
{
    match status {
        Some(v) => i32_to_bool(v),
        None => true,
    }
}

/// The identifier of the message that a submission queued. `status` is what
/// the client library answered, or `None` where nothing was sent because
/// there was nothing to say: no message was queued then, and there is no
/// identifier. There is none either where the status is negative.
pub fn message_id(status: Option<i32>) -> (id: Option<u64>)
    ensures
        id == match status {
            Some(v) => spec_message_id(v),
            None => None,
        },
{
    match status {
        Some(v) => {
            if v >= 0 {
                Some(v as u64)
            } else {
                None
            }
        },
        None => None,
    }
}

/// The identifier of the message that a formatted submission queued, as the
/// client library reports it: any status but [`NOT_QUEUED`]. Where nothing
/// was sent there is none.
pub fn formatted_message_id(status: Option<i32>) -> (id: Option<i32>)
    ensures
        id == match status {
            Some(v) => if v == NOT_QUEUED {
                None
            } else {
                Some(v)
            },
            None => None,
        },
{
    match status {
        Some(v) => {
            if v == NOT_QUEUED {
                None
            } else {
                Some(v)
            }
        },
        None => None,
    }
}

} // verus!
