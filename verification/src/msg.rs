use vstd::prelude::*;
use vstd::string::StringExecFns;

use crate::errors::Error;

verus! {

/// One content part of a thread message: textual, or an image (or any
/// other non-text kind), which this client does not support.
pub enum MsgContent {
    Text(String),
    Image,
}

/// Extracts the textual value of a message from its content parts.
///
/// Only the first part is examined and any subsequent parts are
/// ignored. A message with no content parts fails as not found; a
/// message whose first part is not textual fails as unsupported
/// content, never as silently empty text.
pub fn get_text_content(content: &Vec<MsgContent>) -> (r: Result<String, Error>)
    ensures
        (r is Ok <==> content@.len() > 0 && content@[0] is Text),
        (r matches Ok(t) ==> t@ == content@[0]->Text_0@),
        (r matches Err(e) ==> {
            if content@.len() == 0 {
                e is NotFound
            } else {
                e is UnsupportedContent && content@[0] is Image
            }
        }),
{
    if content.len() == 0 {
        return Err(Error::NotFound(String::from_str("no message content found")));
    }
    match &content[0] {
        MsgContent::Text(s) => Ok(s.clone()),
        MsgContent::Image => Err(Error::UnsupportedContent),
    }
}

} // verus!
