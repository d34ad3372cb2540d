//! How the CoreMIDI bridge's status codes and error messages become results,
//! and the check strings pass before they cross into C.
use vstd::prelude::*;
use vstd::string::StringSliceAdditionalSpecFns;
use vstd::string::StringExecFns;
use crate::error::{decimal_string, decimal_text, is_named_status, MidiError, MidiResult};

verus! {

/// Turns a bridge status and its optional error message into a result:
/// status 0 is success; otherwise a message wins as a `Bridge` error, a
/// CoreMIDI-range status (at most -10000) is a `Status` error, and any other
/// status is a `Bridge` error naming it.
pub fn swift_result(status: i32, error: Option<String>) -> (r: MidiResult<()>)
    ensures
        status == 0 ==> r is Ok,
        status != 0 ==> match error {
            Some(message) => r == Err::<(), MidiError>(MidiError::Bridge(message)),
            None => if status <= -10000 {
                r matches Err(MidiError::Status(s)) && s.spec_raw() == status
                    && ((s is OsStatus) <==> !is_named_status(status))
            } else {
                r matches Err(MidiError::Bridge(m)) && m@ == "CoreMIDI bridge returned status "@ + decimal_text(status as int)
            },
        },
{
    if status == 0 {
        return Ok(());
    }
    match error {
        Some(message) => Err(MidiError::Bridge(message)),
        None => {
            if status <= -10000 {
                crate::error::result_from_status(status)
            } else {
                let mut text = String::from_str("CoreMIDI bridge returned status ");
                let digits = decimal_string(status as i128);
                text.append(digits.as_str());
                Err(MidiError::Bridge(text))
            }
        },
    }
}

/// Whether a string has no NUL byte, as a C string must not.
pub open spec fn no_interior_nul(value: Seq<u8>) -> bool {
    forall|i: int| 0 <= i < value.len() ==> #[trigger] value[i] != 0
}

/// Refuses a string with a NUL byte inside, which cannot become a C
/// string, as `InvalidArgument`.
pub fn validate_c_string(value: &str) -> (r: MidiResult<()>)
    ensures
        r is Ok <==> no_interior_nul(value.spec_bytes()),
        r matches Err(e) ==> e matches MidiError::InvalidArgument(m) && m@ == "string contains an interior NUL byte"@,
{
    let bytes = value.as_bytes();
    let mut i: usize = 0;
    while i < bytes.len()
        invariant
            i <= bytes@.len(),
            bytes@ == value.spec_bytes(),
            forall|j: int| 0 <= j < i ==> #[trigger] bytes@[j] != 0,
        decreases bytes@.len() - i,
    {
        if bytes[i] == 0 {
            assert(value.spec_bytes()[i as int] == 0);
            return Err(MidiError::InvalidArgument(String::from_str("string contains an interior NUL byte")));
        }
        i = i + 1;
    }
    Ok(())
}

} // verus!
