//! The validated text fields of a ticket: a title and a description.

use vstd::prelude::*;

verus! {

/// The number of bytes in the UTF-8 encoding of `s`, which is what `str::len`
/// counts.
pub open spec fn byte_len(s: Seq<char>) -> nat {
    vstd::utf8::encode_utf8(s).len()
}

/// Longest accepted title, in bytes.
pub const TITLE_MAX_BYTES: usize = 50;

/// Longest accepted description, in bytes.
pub const DESCRIPTION_MAX_BYTES: usize = 500;

/// A title is accepted when it is not empty and at most 50 bytes long.
pub open spec fn valid_title(s: Seq<char>) -> bool {
    s.len() > 0 && byte_len(s) <= TITLE_MAX_BYTES
}

/// A description is accepted when it is not empty and at most 500 bytes long.
pub open spec fn valid_description(s: Seq<char>) -> bool {
    s.len() > 0 && byte_len(s) <= DESCRIPTION_MAX_BYTES
}

/// Why a title was refused.
#[derive(Debug, Clone, Copy, PartialEq, Eq, Structural)]
pub enum TicketTitleError {
    Empty,
    TooLong,
}

/// Why a description was refused.
#[derive(Debug, Clone, Copy, PartialEq, Eq, Structural)]
pub enum TicketDescriptionError {
    Empty,
    TooLong,
}

/// The outcome of validating a title, over the text's characters.
pub open spec fn title_check(s: Seq<char>) -> Result<(), TicketTitleError> {
    if s.len() == 0 {
        Err(TicketTitleError::Empty)
    } else if byte_len(s) > TITLE_MAX_BYTES {
        Err(TicketTitleError::TooLong)
    } else {
        Ok(())
    }
}

/// The outcome of validating a description, over the text's characters.
pub open spec fn description_check(s: Seq<char>) -> Result<(), TicketDescriptionError> {
    if s.len() == 0 {
        Err(TicketDescriptionError::Empty)
    } else if byte_len(s) > DESCRIPTION_MAX_BYTES {
        Err(TicketDescriptionError::TooLong)
    } else {
        Ok(())
    }
}

/// A ticket title: never empty, at most 50 bytes.
#[derive(Debug, PartialEq, Eq)]
pub struct TicketTitle {
    text: String,
}

impl View for TicketTitle {
    type V = Seq<char>;

    closed spec fn view(&self) -> Seq<char> {
        self.text@
    }
}

impl TicketTitle {
    #[verifier::type_invariant]
    closed spec fn accepted(self) -> bool {
        valid_title(self.text@)
    }

    /// Validates `value` and keeps it as a title.
    pub fn try_from(value: &str) -> (r: Result<TicketTitle, TicketTitleError>)
        ensures
            match r {
                Ok(t) => title_check(value@) == Ok::<(), TicketTitleError>(()) && t@ == value@,
                Err(e) => title_check(value@) == Err::<(), TicketTitleError>(e),
            },
    {
        if value.is_empty() {
            Err(TicketTitleError::Empty)
        } else if value.as_bytes().len() > TITLE_MAX_BYTES {
            Err(TicketTitleError::TooLong)
        } else {
            Ok(TicketTitle { text: value.to_owned() })
        }
    }

    /// The title's text.
    pub fn as_str(&self) -> (s: &str)
        ensures
            s@ == self@,
            valid_title(s@),
    {
        proof {
            use_type_invariant(self);
        }
        self.text.as_str()
    }

    /// The title's text, as written by `Display`.
    pub fn to_string(&self) -> (s: String)
        ensures
            s@ == self@,
            valid_title(s@),
    {
        proof {
            use_type_invariant(self);
        }
        self.text.clone()
    }
}

impl Clone for TicketTitle {
    fn clone(&self) -> (c: Self)
        ensures
            c@ == self@,
    {
        proof {
            use_type_invariant(self);
        }
        TicketTitle { text: self.text.clone() }
    }
}

/// A ticket description: never empty, at most 500 bytes.
#[derive(Debug, PartialEq, Eq)]
pub struct TicketDescription {
    text: String,
}

impl View for TicketDescription {
    type V = Seq<char>;

    closed spec fn view(&self) -> Seq<char> {
        self.text@
    }
}

impl TicketDescription {
    #[verifier::type_invariant]
    closed spec fn accepted(self) -> bool {
        valid_description(self.text@)
    }

    /// Validates `value` and keeps it as a description.
    pub fn try_from(value: &str) -> (r: Result<TicketDescription, TicketDescriptionError>)
        ensures
            match r {
                Ok(d) => description_check(value@) == Ok::<(), TicketDescriptionError>(())
                    && d@ == value@,
                Err(e) => description_check(value@) == Err::<(), TicketDescriptionError>(e),
            },
    {
        if value.is_empty() {
            Err(TicketDescriptionError::Empty)
        } else if value.as_bytes().len() > DESCRIPTION_MAX_BYTES {
            Err(TicketDescriptionError::TooLong)
        } else {
            Ok(TicketDescription { text: value.to_owned() })
        }
    }

    /// The description's text.
    pub fn as_str(&self) -> (s: &str)
        ensures
            s@ == self@,
            valid_description(s@),
    {
        proof {
            use_type_invariant(self);
        }
        self.text.as_str()
    }

    /// The description's text, as written by `Display`.
    pub fn to_string(&self) -> (s: String)
        ensures
            s@ == self@,
            valid_description(s@),
    {
        proof {
            use_type_invariant(self);
        }
        self.text.clone()
    }
}

impl Clone for TicketDescription {
    fn clone(&self) -> (c: Self)
        ensures
            c@ == self@,
    {
        proof {
            use_type_invariant(self);
        }
        TicketDescription { text: self.text.clone() }
    }
}

} // verus!
