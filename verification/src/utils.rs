//! Utility helpers over users: username validation and contact formatting.

use crate::text::char_is_alphanumeric;
use crate::text::is_alphanumeric_char;
use crate::users::User;
use vstd::prelude::*;
use vstd::string::StrSliceExecFns;
use vstd::string::StringExecFns;
use vstd::string::StringSliceAdditionalSpecFns;

verus! {

/// A valid username encodes to at least three bytes, and every character is
/// alphanumeric or an underscore.
pub open spec fn valid_username(username: &str) -> bool {
    &&& username.spec_bytes().len() >= 3
    &&& forall|i: int|
        0 <= i < username@.len() ==> is_alphanumeric_char(#[trigger] username@[i]) || username@[i]
            == '_'
}

/// Checks a username against [`valid_username`].
pub fn is_valid_username(username: &str) -> (valid: bool)
    ensures
        valid == valid_username(username),
{
    if username.as_bytes().len() < 3 {
        return false;
    }
    let count = username.unicode_len();
    let mut i: usize = 0;
    while i < count
        invariant
            i <= count,
            count == username@.len(),
            username.spec_bytes().len() >= 3,
            forall|j: int|
                0 <= j < i ==> is_alphanumeric_char(#[trigger] username@[j]) || username@[j] == '_',
        decreases count - i,
    {
        let c = username.get_char(i);
        if !(char_is_alphanumeric(c) || c == '_') {
            return false;
        }
        i += 1;
    }
    true
}

/// Renders a user's contact line, `name <email>`.
pub fn format_user_info(user: &User) -> (info: String)
    ensures
        info@ == user.name@ + " <"@ + user.email@ + ">"@,
{
    let mut info = user.name.as_str().to_owned();
    info.append(" <");
    info.append(user.email.as_str());
    info.append(">");
    info
}

} // verus!
